//! Dynamic values, their typed conversions, and the ordered property store.
use vstd::prelude::*;

verus! {

/// A number as it appears in a document: a non-negative integer, a negative
/// integer, or a floating-point number kept as its IEEE-754 bit pattern.
#[derive(Debug, Clone, Copy, PartialEq, Eq, Structural)]
pub enum Number {
    PosInt(u64),
    NegInt(i64),
    Float(u64),
}

/// A dynamic, JSON-shaped value.
#[derive(Debug, PartialEq)]
pub enum PropertyValue {
    Null,
    Bool(bool),
    Number(Number),
    String(String),
    Array(Vec<PropertyValue>),
    Object(Properties),
}

/// An ordered mapping from keys to dynamic values; keys are unique and the
/// order of first insertion is kept.
#[derive(Debug, PartialEq)]
pub struct Properties {
    pub(crate) entries: Vec<(String, PropertyValue)>,
}

/// The mathematical content of a dynamic value.
pub ghost enum Json {
    Null,
    Bool(bool),
    Number(Number),
    Str(Seq<char>),
    Array(Seq<Json>),
    Object(Seq<(Seq<char>, Json)>),
}

impl PropertyValue {
    /// The content of this value.
    pub open(crate) spec fn model(self) -> Json
        decreases self, 1nat,
    {
        match self {
            PropertyValue::Null => Json::Null,
            PropertyValue::Bool(b) => Json::Bool(b),
            PropertyValue::Number(n) => Json::Number(n),
            PropertyValue::String(s) => Json::Str(s@),
            PropertyValue::Array(items) => Json::Array(models_of(items@)),
            PropertyValue::Object(p) => Json::Object(entry_models(p.entries@)),
        }
    }
}

impl Properties {
    /// No two entries of the store share a key.
    pub open spec fn wf(&self) -> bool {
        keys_unique(self.model())
    }

    /// The entries of this store, in order, with their contents.
    pub open(crate) spec fn model(self) -> Seq<(Seq<char>, Json)> {
        entry_models(self.entries@)
    }
}

/// The contents of the values of `s`.
pub open(crate) spec fn models_of(s: Seq<PropertyValue>) -> Seq<Json>
    decreases s, 0nat,
{
    if s.len() == 0 {
        Seq::empty()
    } else {
        models_of(s.subrange(0, s.len() - 1)).push(s[s.len() - 1].model())
    }
}

/// The keys of the entries of `s` with the contents of their values.
pub open(crate) spec fn entry_models(s: Seq<(String, PropertyValue)>) -> Seq<(Seq<char>, Json)>
    decreases s, 0nat,
{
    if s.len() == 0 {
        Seq::empty()
    } else {
        let last = s[s.len() - 1];
        entry_models(s.subrange(0, s.len() - 1)).push((last.0@, last.1.model()))
    }
}

proof fn lemma_models_of(s: Seq<PropertyValue>)
    ensures
        models_of(s).len() == s.len(),
        forall|i: int| 0 <= i < s.len() ==> #[trigger] models_of(s)[i] == s[i].model(),
    decreases s.len(),
{
    if s.len() > 0 {
        lemma_models_of(s.subrange(0, s.len() - 1));
    }
}

pub(crate) proof fn lemma_entry_models(s: Seq<(String, PropertyValue)>)
    ensures
        entry_models(s).len() == s.len(),
        forall|i: int|
            0 <= i < s.len() ==> #[trigger] entry_models(s)[i] == (s[i].0@, s[i].1.model()),
    decreases s.len(),
{
    if s.len() > 0 {
        lemma_entry_models(s.subrange(0, s.len() - 1));
    }
}

fn copy_value(v: &PropertyValue) -> (r: PropertyValue)
    ensures
        r.model() == v.model(),
    decreases v, 1nat,
{
    match v {
        PropertyValue::Null => PropertyValue::Null,
        PropertyValue::Bool(b) => PropertyValue::Bool(*b),
        PropertyValue::Number(n) => PropertyValue::Number(*n),
        PropertyValue::String(s) => PropertyValue::String(s.clone()),
        PropertyValue::Array(items) => {
            let mut out: Vec<PropertyValue> = Vec::new();
            let mut i: usize = 0;
            while i < items.len()
                invariant
                    *v == PropertyValue::Array(*items),
                    i <= items@.len(),
                    out@.len() == i,
                    forall|j: int| 0 <= j < i ==> #[trigger] out@[j].model() == items@[j].model(),
                decreases items@.len() - i,
            {
                proof {
                    vstd::std_specs::vec::axiom_vec_index_decreases(*items, i as int);
                    assert(decreases_to!(*v => v->Array_0));
                    assert(decreases_to!(*v => items@[i as int]));
                }
                let c = copy_value(&items[i]);
                out.push(c);
                i = i + 1;
            }
            proof {
                lemma_models_of(out@);
                lemma_models_of(items@);
                assert(models_of(out@) =~= models_of(items@));
            }
            PropertyValue::Array(out)
        },
        PropertyValue::Object(p) => {
            let entries = copy_entries(&p.entries);
            PropertyValue::Object(Properties { entries })
        },
    }
}

fn copy_entries(entries: &Vec<(String, PropertyValue)>) -> (r: Vec<(String, PropertyValue)>)
    ensures
        entry_models(r@) == entry_models(entries@),
    decreases entries, 0nat,
{
    let mut out: Vec<(String, PropertyValue)> = Vec::new();
    let mut i: usize = 0;
    while i < entries.len()
        invariant
            i <= entries@.len(),
            out@.len() == i,
            forall|j: int|
                0 <= j < i ==> #[trigger] out@[j].0@ == entries@[j].0@ && out@[j].1.model()
                    == entries@[j].1.model(),
        decreases entries@.len() - i,
    {
        proof {
            vstd::std_specs::vec::axiom_vec_index_decreases(*entries, i as int);
            assert(decreases_to!(*entries => entries@[i as int].1));
        }
        let value = copy_value(&entries[i].1);
        out.push((entries[i].0.clone(), value));
        i = i + 1;
    }
    proof {
        lemma_entry_models(out@);
        lemma_entry_models(entries@);
        assert(entry_models(out@) =~= entry_models(entries@));
    }
    out
}

impl Clone for PropertyValue {
    fn clone(&self) -> (r: Self)
        ensures
            r.model() == self.model(),
    {
        copy_value(self)
    }
}

impl Clone for Properties {
    fn clone(&self) -> (r: Self)
        ensures
            r.model() == self.model(),
            self.wf() ==> r.wf(),
    {
        Properties { entries: copy_entries(&self.entries) }
    }
}


/// Why a dynamic value could not be read as a host value.
#[derive(Debug, Clone, Copy, PartialEq, Eq, Structural)]
pub enum ConversionError {
    /// The value has another shape than the one the host type is read from.
    WrongShape,
    /// The value is a number that the host type cannot hold exactly.
    Lossy,
}

/// Index of the first entry of `m` whose key is `key`.
pub open spec fn is_first_index(m: Seq<(Seq<char>, Json)>, key: Seq<char>, i: int) -> bool {
    &&& 0 <= i < m.len()
    &&& m[i].0 == key
    &&& forall|j: int| 0 <= j < i ==> m[j].0 != key
}

pub open spec fn has_key(m: Seq<(Seq<char>, Json)>, key: Seq<char>) -> bool {
    exists|i: int| 0 <= i < m.len() && m[i].0 == key
}

pub open spec fn first_index(m: Seq<(Seq<char>, Json)>, key: Seq<char>) -> int {
    choose|i: int| is_first_index(m, key, i)
}

/// The value stored under `key`, if any.
pub open spec fn lookup(m: Seq<(Seq<char>, Json)>, key: Seq<char>) -> Option<Json> {
    if has_key(m, key) {
        Some(m[first_index(m, key)].1)
    } else {
        None
    }
}

/// The entries after storing `value` under `key`: an existing entry keeps its
/// place and gets the new value; a new key is appended.
pub open spec fn store(m: Seq<(Seq<char>, Json)>, key: Seq<char>, value: Json) -> Seq<
    (Seq<char>, Json),
> {
    if has_key(m, key) {
        m.update(first_index(m, key), (key, value))
    } else {
        m.push((key, value))
    }
}

/// No two entries share a key.
pub open spec fn keys_unique(m: Seq<(Seq<char>, Json)>) -> bool {
    forall|i: int, j: int| 0 <= i < j < m.len() ==> m[i].0 != m[j].0
}

proof fn lemma_first_index(m: Seq<(Seq<char>, Json)>, key: Seq<char>, i: int)
    requires
        0 <= i < m.len(),
        m[i].0 == key,
    ensures
        has_key(m, key),
        is_first_index(m, key, first_index(m, key)),
    decreases i,
{
    if exists|j: int| 0 <= j < i && m[j].0 == key {
        let j = choose|j: int| 0 <= j < i && m[j].0 == key;
        lemma_first_index(m, key, j);
    } else {
        assert(is_first_index(m, key, i));
    }
}

/// Reads a host value out of a dynamic value.
pub trait FromValue: Sized + DeepView {
    /// What reading a value of this type out of `j` gives: the content of the
    /// host value, or why there is none.
    spec fn from_json(j: Json) -> Result<<Self as DeepView>::V, ConversionError>;

    fn from_value(value: &PropertyValue) -> (r: Result<Self, ConversionError>)
        ensures
            match Self::from_json(value.model()) {
                Ok(m) => r is Ok && r->Ok_0.deep_view() == m,
                Err(e) => r == Err::<Self, ConversionError>(e),
            },
    ;
}

/// Turns a host value into a dynamic value; this never fails, and the value
/// reads back as what was written.
pub trait ToValue: FromValue {
    /// The dynamic value that a host value with content `m` turns into.
    spec fn to_json(m: <Self as DeepView>::V) -> Json;

    fn into_value(self) -> (r: PropertyValue)
        ensures
            r.model() == Self::to_json(self.deep_view()),
    ;

    /// Reading back what was written gives the value that was written.
    proof fn lemma_round_trip(m: <Self as DeepView>::V)
        ensures
            Self::from_json(Self::to_json(m)) == Ok::<<Self as DeepView>::V, ConversionError>(m),
    ;
}

impl FromValue for bool {
    open spec fn from_json(j: Json) -> Result<bool, ConversionError> {
        match j {
            Json::Bool(b) => Ok(b),
            _ => Err(ConversionError::WrongShape),
        }
    }

    fn from_value(value: &PropertyValue) -> (r: Result<bool, ConversionError>) {
        match value {
            PropertyValue::Bool(b) => Ok(*b),
            _ => Err(ConversionError::WrongShape),
        }
    }
}

impl ToValue for bool {
    open spec fn to_json(m: bool) -> Json {
        Json::Bool(m)
    }

    fn into_value(self) -> (r: PropertyValue) {
        PropertyValue::Bool(self)
    }

    proof fn lemma_round_trip(m: bool) {
    }
}

impl FromValue for String {
    open spec fn from_json(j: Json) -> Result<Seq<char>, ConversionError> {
        match j {
            Json::Str(s) => Ok(s),
            _ => Err(ConversionError::WrongShape),
        }
    }

    fn from_value(value: &PropertyValue) -> (r: Result<String, ConversionError>) {
        match value {
            PropertyValue::String(s) => Ok(s.clone()),
            _ => Err(ConversionError::WrongShape),
        }
    }
}

impl ToValue for String {
    open spec fn to_json(m: Seq<char>) -> Json {
        Json::Str(m)
    }

    fn into_value(self) -> (r: PropertyValue) {
        PropertyValue::String(self)
    }

    proof fn lemma_round_trip(m: Seq<char>) {
    }
}

/// The number that a host integer turns into.
pub open spec fn int_json(x: int) -> Json {
    if x >= 0 {
        Json::Number(Number::PosInt(x as u64))
    } else {
        Json::Number(Number::NegInt(x as i64))
    }
}

/// The integer that `j` holds, if it is an integer that fits `lo..=hi`.
pub open spec fn int_in_range(j: Json, lo: int, hi: int) -> Result<int, ConversionError> {
    match j {
        Json::Number(Number::PosInt(u)) => if u <= hi {
            Ok(u as int)
        } else {
            Err(ConversionError::Lossy)
        },
        Json::Number(Number::NegInt(i)) => if lo <= i && i <= hi {
            Ok(i as int)
        } else {
            Err(ConversionError::Lossy)
        },
        Json::Number(Number::Float(_)) => Err(ConversionError::Lossy),
        _ => Err(ConversionError::WrongShape),
    }
}

impl FromValue for i64 {
    open spec fn from_json(j: Json) -> Result<i64, ConversionError> {
        match int_in_range(j, i64::MIN as int, i64::MAX as int) {
            Ok(x) => Ok(x as i64),
            Err(e) => Err(e),
        }
    }

    fn from_value(value: &PropertyValue) -> (r: Result<i64, ConversionError>) {
        match value {
            PropertyValue::Number(Number::PosInt(u)) => if *u <= i64::MAX as u64 {
                Ok(*u as i64)
            } else {
                Err(ConversionError::Lossy)
            },
            PropertyValue::Number(Number::NegInt(i)) => Ok(*i),
            PropertyValue::Number(Number::Float(_)) => Err(ConversionError::Lossy),
            _ => Err(ConversionError::WrongShape),
        }
    }
}

impl ToValue for i64 {
    open spec fn to_json(m: i64) -> Json {
        int_json(m as int)
    }

    fn into_value(self) -> (r: PropertyValue) {
        if self >= 0 {
            PropertyValue::Number(Number::PosInt(self as u64))
        } else {
            PropertyValue::Number(Number::NegInt(self))
        }
    }

    proof fn lemma_round_trip(m: i64) {
    }
}

impl FromValue for u64 {
    open spec fn from_json(j: Json) -> Result<u64, ConversionError> {
        match int_in_range(j, 0, u64::MAX as int) {
            Ok(x) => Ok(x as u64),
            Err(e) => Err(e),
        }
    }

    fn from_value(value: &PropertyValue) -> (r: Result<u64, ConversionError>) {
        match value {
            PropertyValue::Number(Number::PosInt(u)) => Ok(*u),
            PropertyValue::Number(Number::NegInt(i)) => if *i >= 0 {
                Ok(*i as u64)
            } else {
                Err(ConversionError::Lossy)
            },
            PropertyValue::Number(Number::Float(_)) => Err(ConversionError::Lossy),
            _ => Err(ConversionError::WrongShape),
        }
    }
}

impl ToValue for u64 {
    open spec fn to_json(m: u64) -> Json {
        int_json(m as int)
    }

    fn into_value(self) -> (r: PropertyValue) {
        PropertyValue::Number(Number::PosInt(self))
    }

    proof fn lemma_round_trip(m: u64) {
    }
}

impl FromValue for i32 {
    open spec fn from_json(j: Json) -> Result<i32, ConversionError> {
        match int_in_range(j, i32::MIN as int, i32::MAX as int) {
            Ok(x) => Ok(x as i32),
            Err(e) => Err(e),
        }
    }

    fn from_value(value: &PropertyValue) -> (r: Result<i32, ConversionError>) {
        match value {
            PropertyValue::Number(Number::PosInt(u)) => if *u <= i32::MAX as u64 {
                Ok(*u as i32)
            } else {
                Err(ConversionError::Lossy)
            },
            PropertyValue::Number(Number::NegInt(i)) => if i32::MIN as i64 <= *i && *i
                <= i32::MAX as i64 {
                Ok(*i as i32)
            } else {
                Err(ConversionError::Lossy)
            },
            PropertyValue::Number(Number::Float(_)) => Err(ConversionError::Lossy),
            _ => Err(ConversionError::WrongShape),
        }
    }
}

impl ToValue for i32 {
    open spec fn to_json(m: i32) -> Json {
        int_json(m as int)
    }

    fn into_value(self) -> (r: PropertyValue) {
        if self >= 0 {
            PropertyValue::Number(Number::PosInt(self as u64))
        } else {
            PropertyValue::Number(Number::NegInt(self as i64))
        }
    }

    proof fn lemma_round_trip(m: i32) {
    }
}

impl FromValue for u32 {
    open spec fn from_json(j: Json) -> Result<u32, ConversionError> {
        match int_in_range(j, 0, u32::MAX as int) {
            Ok(x) => Ok(x as u32),
            Err(e) => Err(e),
        }
    }

    fn from_value(value: &PropertyValue) -> (r: Result<u32, ConversionError>) {
        match value {
            PropertyValue::Number(Number::PosInt(u)) => if *u <= u32::MAX as u64 {
                Ok(*u as u32)
            } else {
                Err(ConversionError::Lossy)
            },
            PropertyValue::Number(Number::NegInt(i)) => if 0 <= *i && *i <= u32::MAX as i64 {
                Ok(*i as u32)
            } else {
                Err(ConversionError::Lossy)
            },
            PropertyValue::Number(Number::Float(_)) => Err(ConversionError::Lossy),
            _ => Err(ConversionError::WrongShape),
        }
    }
}

impl ToValue for u32 {
    open spec fn to_json(m: u32) -> Json {
        int_json(m as int)
    }

    fn into_value(self) -> (r: PropertyValue) {
        PropertyValue::Number(Number::PosInt(self as u64))
    }

    proof fn lemma_round_trip(m: u32) {
    }
}


impl DeepView for PropertyValue {
    type V = Json;

    open spec fn deep_view(&self) -> Json {
        self.model()
    }
}

impl FromValue for PropertyValue {
    open spec fn from_json(j: Json) -> Result<Json, ConversionError> {
        Ok(j)
    }

    fn from_value(value: &PropertyValue) -> (r: Result<PropertyValue, ConversionError>) {
        Ok(value.clone())
    }
}

impl ToValue for PropertyValue {
    open spec fn to_json(m: Json) -> Json {
        m
    }

    fn into_value(self) -> (r: PropertyValue) {
        self
    }

    proof fn lemma_round_trip(m: Json) {
    }
}

/// What reading each of `items` as a `T` gives: all the host values, or why
/// the first item that cannot be read cannot.
pub open spec fn from_json_all<T: FromValue>(items: Seq<Json>) -> Result<
    Seq<<T as DeepView>::V>,
    ConversionError,
>
    decreases items.len(),
{
    if items.len() == 0 {
        Ok(Seq::empty())
    } else {
        match from_json_all::<T>(items.drop_last()) {
            Err(e) => Err(e),
            Ok(front) => match T::from_json(items.last()) {
                Ok(v) => Ok(front.push(v)),
                Err(e) => Err(e),
            },
        }
    }
}

impl<T: FromValue> FromValue for Vec<T> {
    open spec fn from_json(j: Json) -> Result<Seq<<T as DeepView>::V>, ConversionError> {
        match j {
            Json::Array(items) => from_json_all::<T>(items),
            _ => Err(ConversionError::WrongShape),
        }
    }

    fn from_value(value: &PropertyValue) -> (r: Result<Vec<T>, ConversionError>) {
        match value {
            PropertyValue::Array(items) => {
                proof {
                    lemma_models_of(items@);
                }
                let ghost js = models_of(items@);
                let mut out: Vec<T> = Vec::new();
                let mut i: usize = 0;
                proof {
                    assert(js.subrange(0, 0) =~= Seq::<Json>::empty());
                    assert(out.deep_view() =~= Seq::<<T as DeepView>::V>::empty());
                }
                while i < items.len()
                    invariant
                        *value == PropertyValue::Array(*items),
                        i <= items@.len(),
                        js == models_of(items@),
                        js.len() == items@.len(),
                        forall|k: int| 0 <= k < items@.len() ==> #[trigger] js[k] == items@[k].model(),
                        from_json_all::<T>(js.subrange(0, i as int)) == Ok::<
                            Seq<<T as DeepView>::V>,
                            ConversionError,
                        >(out.deep_view()),
                    decreases items@.len() - i,
                {
                    let ghost front = js.subrange(0, i as int);
                    let ghost q = js.subrange(0, i + 1);
                    proof {
                        assert(q.drop_last() =~= front);
                        assert(q.last() == items@[i as int].model());
                    }
                    match T::from_value(&items[i]) {
                        Ok(x) => {
                            let ghost before = out.deep_view();
                            out.push(x);
                            proof {
                                assert(out.deep_view() =~= before.push(x.deep_view()));
                            }
                        },
                        Err(e) => {
                            proof {
                                lemma_from_json_all_err::<T>(js, i as int);
                            }
                            return Err(e);
                        },
                    }
                    i = i + 1;
                }
                proof {
                    assert(js.subrange(0, i as int) =~= js);
                }
                Ok(out)
            },
            _ => Err(ConversionError::WrongShape),
        }
    }
}

/// Where reading an item of a prefix fails, reading the whole fails the same way.
proof fn lemma_from_json_all_err<T: FromValue>(js: Seq<Json>, i: int)
    requires
        0 <= i < js.len(),
        from_json_all::<T>(js.subrange(0, i)) is Ok,
        T::from_json(js[i]) is Err,
    ensures
        from_json_all::<T>(js) == Err::<Seq<<T as DeepView>::V>, ConversionError>(
            T::from_json(js[i])->Err_0,
        ),
    decreases js.len(),
{
    let q = js.subrange(0, i + 1);
    assert(q.drop_last() =~= js.subrange(0, i));
    assert(q.last() == js[i]);
    lemma_from_json_all_prefix_err::<T>(js, i + 1);
}

/// Once a prefix fails, every longer prefix fails the same way.
proof fn lemma_from_json_all_prefix_err<T: FromValue>(js: Seq<Json>, n: int)
    requires
        0 <= n <= js.len(),
        from_json_all::<T>(js.subrange(0, n)) is Err,
    ensures
        from_json_all::<T>(js) == from_json_all::<T>(js.subrange(0, n)),
    decreases js.len() - n,
{
    if n == js.len() {
        assert(js.subrange(0, n) =~= js);
    } else {
        let q = js.subrange(0, n + 1);
        assert(q.drop_last() =~= js.subrange(0, n));
        lemma_from_json_all_prefix_err::<T>(js, n + 1);
    }
}

/// What each of the host values with contents `ms` turns into.
pub open spec fn to_json_all<T: ToValue>(ms: Seq<<T as DeepView>::V>) -> Seq<Json> {
    ms.map_values(|m: <T as DeepView>::V| T::to_json(m))
}

proof fn lemma_round_trip_all<T: ToValue>(ms: Seq<<T as DeepView>::V>)
    ensures
        from_json_all::<T>(to_json_all::<T>(ms)) == Ok::<Seq<<T as DeepView>::V>, ConversionError>(ms),
    decreases ms.len(),
{
    if ms.len() > 0 {
        let front = ms.drop_last();
        let js = to_json_all::<T>(ms);
        lemma_round_trip_all::<T>(front);
        T::lemma_round_trip(ms.last());
        assert(js.drop_last() =~= to_json_all::<T>(front));
        assert(js.last() == T::to_json(ms.last()));
        assert(front.push(ms.last()) =~= ms);
    } else {
        assert(to_json_all::<T>(ms) =~= Seq::<Json>::empty());
        assert(ms =~= Seq::<<T as DeepView>::V>::empty());
    }
}

impl<T: ToValue> ToValue for Vec<T> {
    open spec fn to_json(m: Seq<<T as DeepView>::V>) -> Json {
        Json::Array(to_json_all::<T>(m))
    }

    fn into_value(self) -> (r: PropertyValue) {
        let ghost ms = self.deep_view();
        let mut rest = self;
        let mut out: Vec<PropertyValue> = Vec::new();
        let ghost n = rest@.len();
        while rest.len() > 0
            invariant
                ms.len() == n,
                rest@.len() <= n,
                out@.len() == n - rest@.len(),
                forall|k: int| 0 <= k < rest@.len() ==> #[trigger] rest@[k].deep_view() == ms[(n - rest@.len()) + k],
                forall|k: int| 0 <= k < out@.len() ==> #[trigger] out@[k].model() == T::to_json(ms[k]),
            decreases rest@.len(),
        {
            let x = rest.remove(0);
            out.push(x.into_value());
        }
        proof {
            lemma_models_of(out@);
            assert(models_of(out@) =~= to_json_all::<T>(ms));
        }
        PropertyValue::Array(out)
    }

    proof fn lemma_round_trip(m: Seq<<T as DeepView>::V>) {
        lemma_round_trip_all::<T>(m);
    }
}

/// Two string slices are equal exactly when they hold the same characters.
pub(crate) fn str_eq(a: &str, b: &str) -> (r: bool)
    ensures
        r == (a@ == b@),
{
    a.to_owned() == b.to_owned()
}

/// `r` is what reading `key` out of the entries `m` as a `T` gives: `None`
/// for an absent key, the stored value read as a `T`, or why it cannot be
/// read as one.
pub open spec fn reads_as<T: FromValue>(
m: Seq<(Seq<char>, Json)>,
key: Seq<char>,
r: Result<Option<T>, ConversionError>,
) -> bool {
match lookup(m, key) {
    None => r == Ok::<Option<T>, ConversionError>(None),
    Some(j) => match T::from_json(j) {
        Ok(v) => r is Ok && r->Ok_0 is Some && r->Ok_0->Some_0.deep_view() == v,
        Err(e) => r == Err::<Option<T>, ConversionError>(e),
    },
}
}

impl Properties {
    /// An empty store.
    pub fn new() -> (r: Properties)
        ensures
            r.model() == Seq::<(Seq<char>, Json)>::empty(),
            r.wf(),
    {
        Properties { entries: Vec::new() }
    }

    /// The number of entries.
    pub fn len(&self) -> (r: usize)
        ensures
            r == self.model().len(),
    {
        proof {
            lemma_entry_models(self.entries@);
        }
        self.entries.len()
    }

    /// The entries, in order.
    pub fn entries(&self) -> (r: &[(String, PropertyValue)])
        ensures
            entry_models(r@) == self.model(),
    {
        self.entries.as_slice()
    }

    /// Where the entry for `key` stands, if there is one.
    fn position(&self, key: &str) -> (r: Option<usize>)
        ensures
            match r {
                Some(i) => is_first_index(self.model(), key@, i as int) && first_index(
                    self.model(),
                    key@,
                ) == i,
                None => !has_key(self.model(), key@),
            },
    {
        proof {
            lemma_entry_models(self.entries@);
        }
        let mut i: usize = 0;
        while i < self.entries.len()
            invariant
                i <= self.entries@.len(),
                entry_models(self.entries@).len() == self.entries@.len(),
                forall|j: int|
                    0 <= j < self.entries@.len() ==> #[trigger] entry_models(self.entries@)[j] == (
                        self.entries@[j].0@,
                        self.entries@[j].1.model(),
                    ),
                forall|j: int| 0 <= j < i ==> self.model()[j].0 != key@,
            decreases self.entries@.len() - i,
        {
            if str_eq(self.entries[i].0.as_str(), key) {
                proof {
                    lemma_first_index(self.model(), key@, i as int);
                    let f = first_index(self.model(), key@);
                    assert(is_first_index(self.model(), key@, i as int));
                    assert(f == i) by {
                        if f < i {
                        } else if f > i {
                        }
                    }
                }
                return Some(i);
            }
            i = i + 1;
        }
        None
    }

    /// The dynamic value stored under `key`, unconverted.
    pub fn get_raw(&self, key: &str) -> (r: Option<&PropertyValue>)
        ensures
            match lookup(self.model(), key@) {
                None => r is None,
                Some(j) => r is Some && r->Some_0.model() == j,
            },
    {
        proof {
            lemma_entry_models(self.entries@);
        }
        match self.position(key) {
            Some(i) => Some(&self.entries[i].1),
            None => None,
        }
    }

    /// The value stored under `key`, read as a `T`: `None` for an absent key,
    /// an error where the stored value cannot be read as a `T`.
    pub fn get<T: FromValue>(&self, key: &str) -> (r: Result<Option<T>, ConversionError>)
        ensures
            reads_as(self.model(), key@, r),
    {
        match self.get_raw(key) {
            None => Ok(None),
            Some(v) => match T::from_value(v) {
                Ok(x) => Ok(Some(x)),
                Err(e) => Err(e),
            },
        }
    }

    /// Stores `value` under `key`, converted to a dynamic value; an existing
    /// entry for `key` is overwritten in place.
    pub fn set<T: ToValue>(&mut self, key: &str, value: T)
        ensures
            final(self).model() == store(old(self).model(), key@, T::to_json(value.deep_view())),
            old(self).wf() ==> final(self).wf(),
    {
        let v = value.into_value();
        self.insert_value(key, v);
    }

    /// Stores a dynamic value under `key`, overwriting an existing entry in place.
    pub fn insert_value(&mut self, key: &str, v: PropertyValue)
        ensures
            final(self).model() == store(old(self).model(), key@, v.model()),
            old(self).wf() ==> final(self).wf(),
    {
        proof {
            if old(self).wf() {
                law_store_keeps_keys_unique(old(self).model(), key@, v.model());
            }
        }
        proof {
            lemma_entry_models(self.entries@);
        }
        let ghost m = self.model();
        match self.position(key) {
            Some(i) => {
                let ghost vm = v.model();
                self.entries.set(i, (key.to_owned(), v));
                proof {
                    lemma_entry_models(self.entries@);
                    assert(self.model() =~= m.update(i as int, (key@, vm)));
                }
            },
            None => {
                let ghost vm = v.model();
                self.entries.push((key.to_owned(), v));
                proof {
                    lemma_entry_models(self.entries@);
                    assert(self.model() =~= m.push((key@, vm)));
                }
            },
        }
    }
}

/// Reading a key right after storing a host value under it finds the value
/// that the host value turned into, and that value reads back as the host
/// value: `get` after `set` gives back what was set.
pub proof fn law_get_after_set<T: ToValue>(
    m: Seq<(Seq<char>, Json)>,
    key: Seq<char>,
    v: <T as DeepView>::V,
)
    ensures
        lookup(store(m, key, T::to_json(v)), key) == Some(T::to_json(v)),
        T::from_json(T::to_json(v)) == Ok::<<T as DeepView>::V, ConversionError>(v),
{
    T::lemma_round_trip(v);
    let s = store(m, key, T::to_json(v));
    if has_key(m, key) {
        let w = choose|i: int| 0 <= i < m.len() && m[i].0 == key;
        lemma_first_index(m, key, w);
        let i = first_index(m, key);
        lemma_first_index(s, key, i);
        assert(is_first_index(s, key, i));
        let f = first_index(s, key);
        assert(f == i) by {
            if f < i {
                assert(s[f].0 == m[f].0);
            }
        }
    } else {
        let i = m.len() as int;
        assert(s[i].0 == key);
        lemma_first_index(s, key, i);
        let f = first_index(s, key);
        assert(f == i) by {
            if f < i {
                assert(s[f].0 == m[f].0);
            }
        }
    }
}

/// A stored value of another shape than a type reads from never reads as a
/// value of that type: reading it is an error, which `reads_as` hands back
/// from `get`. A fractional number read as an integer is an error too.
pub proof fn law_shape_mismatch<T: FromValue>(j: Json)
    ensures
        !(j is Bool) ==> <bool as FromValue>::from_json(j) == Err::<bool, ConversionError>(
            ConversionError::WrongShape,
        ),
        !(j is Str) ==> <String as FromValue>::from_json(j) == Err::<Seq<char>, ConversionError>(
            ConversionError::WrongShape,
        ),
        !(j is Number) ==> <i64 as FromValue>::from_json(j) == Err::<i64, ConversionError>(
            ConversionError::WrongShape,
        ) && <u64 as FromValue>::from_json(j) == Err::<u64, ConversionError>(
            ConversionError::WrongShape,
        ) && <i32 as FromValue>::from_json(j) == Err::<i32, ConversionError>(
            ConversionError::WrongShape,
        ) && <u32 as FromValue>::from_json(j) == Err::<u32, ConversionError>(
            ConversionError::WrongShape,
        ),
        (j is Number && j->Number_0 is Float) ==> <i64 as FromValue>::from_json(j) == Err::<
            i64,
            ConversionError,
        >(ConversionError::Lossy) && <u64 as FromValue>::from_json(j) == Err::<u64, ConversionError>(
            ConversionError::Lossy,
        ) && <i32 as FromValue>::from_json(j) == Err::<i32, ConversionError>(
            ConversionError::Lossy,
        ) && <u32 as FromValue>::from_json(j) == Err::<u32, ConversionError>(
            ConversionError::Lossy,
        ),
        !(j is Array) ==> <Vec<T> as FromValue>::from_json(j) == Err::<
            Seq<<T as DeepView>::V>,
            ConversionError,
        >(ConversionError::WrongShape),
{
}

/// Storing a value never makes two entries share a key.
pub proof fn law_store_keeps_keys_unique(m: Seq<(Seq<char>, Json)>, key: Seq<char>, value: Json)
    requires
        keys_unique(m),
    ensures
        keys_unique(store(m, key, value)),
{
    if has_key(m, key) {
        let i = choose|i: int| 0 <= i < m.len() && m[i].0 == key;
        lemma_first_index(m, key, i);
    }
}

/// Storing under one key leaves what every other key holds unchanged.
pub proof fn law_store_leaves_other_keys(
    m: Seq<(Seq<char>, Json)>,
    key: Seq<char>,
    value: Json,
    other: Seq<char>,
)
    requires
        other != key,
    ensures
        lookup(store(m, key, value), other) == lookup(m, other),
{
    let s = store(m, key, value);
    if has_key(m, key) {
        let w = choose|i: int| 0 <= i < m.len() && m[i].0 == key;
        lemma_first_index(m, key, w);
    }
    assert(s.len() >= m.len());
    assert(forall|i: int| 0 <= i < m.len() ==> (#[trigger] s[i].0 == other <==> m[i].0 == other));
    if has_key(m, other) {
        let i = choose|i: int| 0 <= i < m.len() && m[i].0 == other;
        lemma_first_index(m, other, i);
        let f = first_index(m, other);
        lemma_first_index(s, other, f);
        let g = first_index(s, other);
        assert(g == f) by {
            if g < f {
            } else if g > f {
            }
        }
    } else {
        assert(!has_key(s, other)) by {
            if has_key(s, other) {
                let i = choose|i: int| 0 <= i < s.len() && s[i].0 == other;
                assert(i < m.len());
            }
        }
    }
}

impl Default for Properties {
    fn default() -> (r: Properties)
        ensures
            r.model() == Seq::<(Seq<char>, Json)>::empty(),
            r.wf(),
    {
        Properties::new()
    }
}

} // verus!
