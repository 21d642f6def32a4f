//! The wire form of the model's values: a list of fields, each a key with a
//! value, as a parser of whatever transport format hands it over and a
//! printer takes it. Where a key occurs more than once, its first occurrence
//! counts.

use crate::response::ResponseStatus;
use crate::text::same_text;
use vstd::prelude::*;
use vstd::string::*;

verus! {

/// A value on the wire. Real numbers are held as IEEE 754 bit patterns:
/// binary64 in `Real` and `Pairs`, binary32 in `Reals`. `Groups` is a list of
/// lists of counts.
#[derive(Clone, Debug, PartialEq)]
pub enum Value {
    Flag(bool),
    Count(u32),
    Real(u64),
    Token(String),
    Counts(Vec<u32>),
    Reals(Vec<u32>),
    Tokens(Vec<String>),
    Pairs(Vec<(u64, u64)>),
    Groups(Vec<Vec<u32>>),
}

/// A key with its value.
#[derive(Clone, Debug, PartialEq)]
pub struct Field {
    pub key: String,
    pub value: Value,
}

/// An enumeration whose variants are named by wire tokens, one token for
/// each variant.
pub trait WireToken: Sized {
    /// The token of a variant.
    spec fn name(self) -> Seq<char>;

    /// The variant that a token names, if any.
    spec fn named(t: Seq<char>) -> Option<Self>;

    /// Writes a variant as its token.
    fn write(&self) -> (s: String)
        ensures
            s@ == self.name(),
    ;

    /// Reads a variant from its token.
    fn read(t: &str) -> (r: Option<Self>)
        ensures
            r == Self::named(t@),
    ;

    /// A variant's token names that variant.
    proof fn lemma_name_is_read(v: Self)
        ensures
            Self::named(v.name()) == Some(v),
    ;
}

/// Whether `i` is the first place in `fields` at which `key` stands.
pub open spec fn is_first(fields: Seq<Field>, key: Seq<char>, i: int) -> bool {
    &&& 0 <= i < fields.len()
    &&& fields[i].key@ == key
    &&& forall|j: int| 0 <= j < i ==> (#[trigger] fields[j]).key@ != key
}

/// Whether some field has the key.
pub open spec fn has_key(fields: Seq<Field>, key: Seq<char>) -> bool {
    exists|i: int| is_first(fields, key, i)
}

/// The value of the first field with the key, if there is one.
pub open spec fn value_of(fields: Seq<Field>, key: Seq<char>) -> Option<Value> {
    if has_key(fields, key) {
        Some(fields[choose|i: int| is_first(fields, key, i)].value)
    } else {
        None
    }
}

/// The first place of a key is the only first place, and its value is the
/// key's value.
pub proof fn lemma_first_is_value(fields: Seq<Field>, key: Seq<char>, i: int)
    requires
        is_first(fields, key, i),
    ensures
        has_key(fields, key),
        value_of(fields, key) == Some(fields[i].value),
{
    let c = choose|c: int| is_first(fields, key, c);
    assert(is_first(fields, key, c));
    if c < i {
        assert(fields[c].key@ != key);
    }
    if i < c {
        assert(fields[i].key@ != key);
    }
}

/// A flag under the key: absent, present, or `InvalidQuery` where the value
/// is no flag.
pub open spec fn flag_of(fields: Seq<Field>, key: Seq<char>) -> Result<
    Option<bool>,
    ResponseStatus,
> {
    match value_of(fields, key) {
        None => Ok(None),
        Some(Value::Flag(b)) => Ok(Some(b)),
        Some(_) => Err(ResponseStatus::InvalidQuery),
    }
}

/// A count under the key.
pub open spec fn count_of(fields: Seq<Field>, key: Seq<char>) -> Result<
    Option<u32>,
    ResponseStatus,
> {
    match value_of(fields, key) {
        None => Ok(None),
        Some(Value::Count(n)) => Ok(Some(n)),
        Some(_) => Err(ResponseStatus::InvalidQuery),
    }
}

/// A real number under the key.
pub open spec fn real_of(fields: Seq<Field>, key: Seq<char>) -> Result<
    Option<u64>,
    ResponseStatus,
> {
    match value_of(fields, key) {
        None => Ok(None),
        Some(Value::Real(x)) => Ok(Some(x)),
        Some(_) => Err(ResponseStatus::InvalidQuery),
    }
}

/// A token under the key.
pub open spec fn token_of(fields: Seq<Field>, key: Seq<char>) -> Result<
    Option<Seq<char>>,
    ResponseStatus,
> {
    match value_of(fields, key) {
        None => Ok(None),
        Some(Value::Token(t)) => Ok(Some(t@)),
        Some(_) => Err(ResponseStatus::InvalidQuery),
    }
}

/// A list of counts under the key, in its order.
pub open spec fn counts_of(fields: Seq<Field>, key: Seq<char>) -> Result<
    Option<Seq<u32>>,
    ResponseStatus,
> {
    match value_of(fields, key) {
        None => Ok(None),
        Some(Value::Counts(v)) => Ok(Some(v@)),
        Some(_) => Err(ResponseStatus::InvalidQuery),
    }
}

/// A list of real numbers under the key, in its order.
pub open spec fn reals_of(fields: Seq<Field>, key: Seq<char>) -> Result<
    Option<Seq<u32>>,
    ResponseStatus,
> {
    match value_of(fields, key) {
        None => Ok(None),
        Some(Value::Reals(v)) => Ok(Some(v@)),
        Some(_) => Err(ResponseStatus::InvalidQuery),
    }
}

/// A list of pairs of real numbers under the key, in its order.
pub open spec fn pairs_of(fields: Seq<Field>, key: Seq<char>) -> Result<
    Option<Seq<(u64, u64)>>,
    ResponseStatus,
> {
    match value_of(fields, key) {
        None => Ok(None),
        Some(Value::Pairs(v)) => Ok(Some(v@)),
        Some(_) => Err(ResponseStatus::InvalidQuery),
    }
}

/// The lists that a list of vectors holds, in its order.
pub open spec fn groups(v: Seq<Vec<u32>>) -> Seq<Seq<u32>> {
    Seq::new(v.len(), |i: int| v[i]@)
}

/// A list of lists of counts under the key, in its order.
pub open spec fn groups_of(fields: Seq<Field>, key: Seq<char>) -> Result<
    Option<Seq<Seq<u32>>>,
    ResponseStatus,
> {
    match value_of(fields, key) {
        None => Ok(None),
        Some(Value::Groups(v)) => Ok(Some(groups(v@))),
        Some(_) => Err(ResponseStatus::InvalidQuery),
    }
}

/// A member of an enumeration under the key: a token that names no member
/// is `InvalidOptions`.
pub open spec fn choice_of<T: WireToken>(fields: Seq<Field>, key: Seq<char>) -> Result<
    Option<T>,
    ResponseStatus,
> {
    match token_of(fields, key) {
        Err(e) => Err(e),
        Ok(None) => Ok(None),
        Ok(Some(t)) => match T::named(t) {
            Some(v) => Ok(Some(v)),
            None => Err(ResponseStatus::InvalidOptions),
        },
    }
}

/// Whether every token of the list names a member of the enumeration.
pub open spec fn all_named<T: WireToken>(ts: Seq<String>) -> bool {
    forall|i: int| 0 <= i < ts.len() ==> T::named((#[trigger] ts[i])@) is Some
}

/// The members that the tokens of a list name, in the list's order.
pub open spec fn members<T: WireToken>(ts: Seq<String>) -> Seq<T> {
    Seq::new(ts.len(), |i: int| T::named(ts[i]@)->Some_0)
}

/// A list of members of an enumeration under the key, in its order: one
/// token that names no member makes the whole `InvalidOptions`.
pub open spec fn choices_of<T: WireToken>(fields: Seq<Field>, key: Seq<char>) -> Result<
    Option<Seq<T>>,
    ResponseStatus,
> {
    match value_of(fields, key) {
        None => Ok(None),
        Some(Value::Tokens(ts)) => if all_named::<T>(ts@) {
            Ok(Some(members::<T>(ts@)))
        } else {
            Err(ResponseStatus::InvalidOptions)
        },
        Some(_) => Err(ResponseStatus::InvalidQuery),
    }
}

/// What must be there: its absence is `InvalidQuery`.
pub open spec fn required<T>(x: Result<Option<T>, ResponseStatus>) -> Result<T, ResponseStatus> {
    match x {
        Err(e) => Err(e),
        Ok(None) => Err(ResponseStatus::InvalidQuery),
        Ok(Some(v)) => Ok(v),
    }
}

/// What has a default: its absence gives `d`.
pub open spec fn or_default<T>(x: Result<Option<T>, ResponseStatus>, d: T) -> Result<
    T,
    ResponseStatus,
> {
    match x {
        Err(e) => Err(e),
        Ok(None) => Ok(d),
        Ok(Some(v)) => Ok(v),
    }
}

/// The views of an optional vector that was read.
pub open spec fn read_items<T>(r: Result<Option<Vec<T>>, ResponseStatus>) -> Result<
    Option<Seq<T>>,
    ResponseStatus,
> {
    match r {
        Ok(Some(v)) => Ok(Some(v@)),
        Ok(None) => Ok(None),
        Err(e) => Err(e),
    }
}

/// Whether what was read stands for `m`: the same error, or a value whose
/// view is `m`'s.
pub open spec fn reads_as<T: View>(
    r: Result<T, ResponseStatus>,
    m: Result<T::V, ResponseStatus>,
) -> bool {
    match m {
        Ok(v) => r is Ok && r->Ok_0@ == v,
        Err(e) => r is Err && r->Err_0 == e,
    }
}

/// The first place at which the key stands, if it stands anywhere.
pub(crate) fn find(fields: &Vec<Field>, key: &str) -> (r: Option<usize>)
    ensures
        match r {
            Some(i) => is_first(fields@, key@, i as int) && value_of(fields@, key@) == Some(
                fields@[i as int].value,
            ),
            None => value_of(fields@, key@) is None,
        },
{
    let mut i: usize = 0;
    while i < fields.len()
        invariant
            i <= fields.len(),
            forall|j: int| 0 <= j < i ==> (#[trigger] fields@[j]).key@ != key@,
        decreases fields.len() - i,
    {
        if same_text(fields[i].key.as_str(), key) {
            proof {
                lemma_first_is_value(fields@, key@, i as int);
            }
            return Some(i);
        }
        i += 1;
    }
    None
}

/// A vector with the same items in the same order.
pub(crate) fn copy_items<T: Copy>(v: &Vec<T>) -> (r: Vec<T>)
    ensures
        r@ == v@,
{
    let mut out: Vec<T> = Vec::new();
    let mut i: usize = 0;
    while i < v.len()
        invariant
            i <= v.len(),
            out@ == v@.subrange(0, i as int),
        decreases v.len() - i,
    {
        out.push(v[i]);
        proof {
            assert(out@ =~= v@.subrange(0, i + 1));
        }
        i += 1;
    }
    proof {
        assert(v@.subrange(0, v@.len() as int) =~= v@);
    }
    out
}

/// Reads a flag under the key.
pub(crate) fn read_flag(fields: &Vec<Field>, key: &str) -> (r: Result<Option<bool>, ResponseStatus>)
    ensures
        r == flag_of(fields@, key@),
{
    match find(fields, key) {
        None => Ok(None),
        Some(i) => match &fields[i].value {
            Value::Flag(b) => Ok(Some(*b)),
            _ => Err(ResponseStatus::InvalidQuery),
        },
    }
}

/// Reads a count under the key.
pub(crate) fn read_count(fields: &Vec<Field>, key: &str) -> (r: Result<Option<u32>, ResponseStatus>)
    ensures
        r == count_of(fields@, key@),
{
    match find(fields, key) {
        None => Ok(None),
        Some(i) => match &fields[i].value {
            Value::Count(n) => Ok(Some(*n)),
            _ => Err(ResponseStatus::InvalidQuery),
        },
    }
}

/// Reads a real number under the key.
pub(crate) fn read_real(fields: &Vec<Field>, key: &str) -> (r: Result<Option<u64>, ResponseStatus>)
    ensures
        r == real_of(fields@, key@),
{
    match find(fields, key) {
        None => Ok(None),
        Some(i) => match &fields[i].value {
            Value::Real(x) => Ok(Some(*x)),
            _ => Err(ResponseStatus::InvalidQuery),
        },
    }
}

/// Reads a list of counts under the key.
pub(crate) fn read_counts(fields: &Vec<Field>, key: &str) -> (r: Result<
    Option<Vec<u32>>,
    ResponseStatus,
>)
    ensures
        read_items(r) == counts_of(fields@, key@),
{
    match find(fields, key) {
        None => Ok(None),
        Some(i) => match &fields[i].value {
            Value::Counts(v) => Ok(Some(copy_items(v))),
            _ => Err(ResponseStatus::InvalidQuery),
        },
    }
}

/// Reads a list of real numbers under the key.
pub(crate) fn read_reals(fields: &Vec<Field>, key: &str) -> (r: Result<
    Option<Vec<u32>>,
    ResponseStatus,
>)
    ensures
        read_items(r) == reals_of(fields@, key@),
{
    match find(fields, key) {
        None => Ok(None),
        Some(i) => match &fields[i].value {
            Value::Reals(v) => Ok(Some(copy_items(v))),
            _ => Err(ResponseStatus::InvalidQuery),
        },
    }
}

/// Reads a list of pairs of real numbers under the key.
pub(crate) fn read_pairs(fields: &Vec<Field>, key: &str) -> (r: Result<
    Option<Vec<(u64, u64)>>,
    ResponseStatus,
>)
    ensures
        read_items(r) == pairs_of(fields@, key@),
{
    match find(fields, key) {
        None => Ok(None),
        Some(i) => match &fields[i].value {
            Value::Pairs(v) => Ok(Some(copy_items(v))),
            _ => Err(ResponseStatus::InvalidQuery),
        },
    }
}

/// Reads a member of an enumeration under the key.
pub(crate) fn read_choice<T: WireToken>(fields: &Vec<Field>, key: &str) -> (r: Result<
    Option<T>,
    ResponseStatus,
>)
    ensures
        r == choice_of::<T>(fields@, key@),
{
    match find(fields, key) {
        None => Ok(None),
        Some(i) => match &fields[i].value {
            Value::Token(t) => match T::read(t.as_str()) {
                Some(v) => Ok(Some(v)),
                None => Err(ResponseStatus::InvalidOptions),
            },
            _ => Err(ResponseStatus::InvalidQuery),
        },
    }
}

/// Reads a list of members of an enumeration under the key.
pub(crate) fn read_choices<T: WireToken>(fields: &Vec<Field>, key: &str) -> (r: Result<
    Option<Vec<T>>,
    ResponseStatus,
>)
    ensures
        read_items(r) == choices_of::<T>(fields@, key@),
{
    match find(fields, key) {
        None => Ok(None),
        Some(i) => match &fields[i].value {
            Value::Tokens(ts) => {
                let mut out: Vec<T> = Vec::new();
                let mut k: usize = 0;
                while k < ts.len()
                    invariant
                        k <= ts.len(),
                        out@.len() == k,
                        value_of(fields@, key@) == Some(Value::Tokens(*ts)),
                        forall|j: int| 0 <= j < k ==> T::named((#[trigger] ts@[j])@) == Some(out@[j]),
                    decreases ts.len() - k,
                {
                    match T::read(ts[k].as_str()) {
                        Some(v) => {
                            out.push(v);
                        },
                        None => {
                            proof {
                                assert(T::named(ts@[k as int]@) is None);
                            }
                            return Err(ResponseStatus::InvalidOptions);
                        },
                    }
                    k += 1;
                }
                proof {
                    assert(out@ =~= members::<T>(ts@));
                }
                Ok(Some(out))
            },
            _ => Err(ResponseStatus::InvalidQuery),
        },
    }
}

/// What must be there, or `InvalidQuery`.
pub(crate) fn need<T>(x: Option<T>) -> (r: Result<T, ResponseStatus>)
    ensures
        r == required(Ok::<Option<T>, ResponseStatus>(x)),
{
    match x {
        Some(v) => Ok(v),
        None => Err(ResponseStatus::InvalidQuery),
    }
}


/// A list of lists with the same items in the same order.
pub(crate) fn copy_groups(v: &Vec<Vec<u32>>) -> (r: Vec<Vec<u32>>)
    ensures
        groups(r@) == groups(v@),
{
    let mut out: Vec<Vec<u32>> = Vec::new();
    let mut i: usize = 0;
    while i < v.len()
        invariant
            i <= v.len(),
            out@.len() == i,
            forall|j: int| 0 <= j < i ==> (#[trigger] out@[j])@ == v@[j]@,
        decreases v.len() - i,
    {
        out.push(copy_items(&v[i]));
        i += 1;
    }
    proof {
        assert(groups(out@) =~= groups(v@));
    }
    out
}

/// Reads a list of lists of counts under the key.
pub(crate) fn read_groups(fields: &Vec<Field>, key: &str) -> (r: Result<
    Option<Vec<Vec<u32>>>,
    ResponseStatus,
>)
    ensures
        match groups_of(fields@, key@) {
            Ok(Some(g)) => r matches Ok(Some(v)) && groups(v@) == g,
            Ok(None) => r matches Ok(None),
            Err(e) => r matches Err(x) && x == e,
        },
{
    match find(fields, key) {
        None => Ok(None),
        Some(i) => match &fields[i].value {
            Value::Groups(v) => Ok(Some(copy_groups(v))),
            _ => Err(ResponseStatus::InvalidQuery),
        },
    }
}

/// Where a field has the key, the key has a first place.
pub proof fn lemma_key_found(f: Seq<Field>, key: Seq<char>, i: int)
    requires
        0 <= i < f.len(),
        f[i].key@ == key,
    ensures
        has_key(f, key),
    decreases i,
{
    if exists|j: int| 0 <= j < i && (#[trigger] f[j]).key@ == key {
        let j = choose|j: int| 0 <= j < i && (#[trigger] f[j]).key@ == key;
        lemma_key_found(f, key, j);
    } else {
        assert(is_first(f, key, i));
    }
}

/// After a field is appended, a key has the value it had, or else the new
/// field's where that has the key.
pub proof fn lemma_value_after_push(f: Seq<Field>, x: Field, key: Seq<char>)
    ensures
        value_of(f.push(x), key) == (if value_of(f, key) is Some {
            value_of(f, key)
        } else if x.key@ == key {
            Some(x.value)
        } else {
            None
        }),
{
    let g = f.push(x);
    if has_key(f, key) {
        let c = choose|c: int| is_first(f, key, c);
        assert forall|j: int| 0 <= j < c implies (#[trigger] g[j]).key@ != key by {
            assert(g[j] == f[j]);
        }
        assert(g[c] == f[c]);
        lemma_first_is_value(f, key, c);
        lemma_first_is_value(g, key, c);
    } else {
        assert forall|j: int| 0 <= j < f.len() implies (#[trigger] g[j]).key@ != key by {
            assert(g[j] == f[j]);
            if f[j].key@ == key {
                lemma_key_found(f, key, j);
            }
        }
        if x.key@ == key {
            assert(g[f.len() as int] == x);
            lemma_first_is_value(g, key, f.len() as int);
        } else {
            if has_key(g, key) {
                let c = choose|c: int| is_first(g, key, c);
                assert(g[c].key@ == key);
            }
        }
    }
}

/// Appends a field with the key, where there is a value for it.
pub(crate) fn put(out: &mut Vec<Field>, key: &str, value: Option<Value>)
    ensures
        value is None ==> final(out)@ == old(out)@,
        value is Some ==> final(out)@.len() == old(out)@.len() + 1 && final(out)@.drop_last()
            == old(out)@ && final(out)@.last().key@ == key@ && final(out)@.last().value
            == value->Some_0,
        forall|k: Seq<char>|
            #[trigger] value_of(final(out)@, k) == (if value_of(old(out)@, k) is Some {
                value_of(old(out)@, k)
            } else if k == key@ {
                value
            } else {
                None
            }),
{
    match value {
        Some(v) => {
            let field = Field { key: key.to_owned(), value: v };
            let ghost x = field;
            out.push(field);
            proof {
                assert(final(out)@ =~= old(out)@.push(x));
                assert(final(out)@.drop_last() =~= old(out)@);
                assert forall|k: Seq<char>|
                    #[trigger] value_of(final(out)@, k) == (if value_of(old(out)@, k) is Some {
                        value_of(old(out)@, k)
                    } else if k == key@ {
                        value
                    } else {
                        None
                    }) by {
                    lemma_value_after_push(old(out)@, x, k);
                }
            }
        },
        None => {},
    }
}

/// The wire value of a flag.
pub(crate) fn flag_value(b: bool) -> (r: Option<Value>)
    ensures
        r == Some(Value::Flag(b)),
{
    Some(Value::Flag(b))
}

/// The wire value of an optional count.
pub(crate) fn count_value(o: &Option<u32>) -> (r: Option<Value>)
    ensures
        r == match *o {
            Some(n) => Some(Value::Count(n)),
            None => None,
        },
{
    match o {
        Some(n) => Some(Value::Count(*n)),
        None => None,
    }
}

/// The wire value of an optional real number.
pub(crate) fn real_value(o: &Option<u64>) -> (r: Option<Value>)
    ensures
        r == match *o {
            Some(x) => Some(Value::Real(x)),
            None => None,
        },
{
    match o {
        Some(x) => Some(Value::Real(*x)),
        None => None,
    }
}

/// The wire value of an optional list of counts.
pub(crate) fn counts_value(o: &Option<Vec<u32>>) -> (r: Option<Value>)
    ensures
        match *o {
            Some(v) => r matches Some(Value::Counts(c)) && c@ == v@,
            None => r is None,
        },
{
    match o {
        Some(v) => Some(Value::Counts(copy_items(v))),
        None => None,
    }
}

/// The wire value of an optional list of real numbers.
pub(crate) fn reals_value(o: &Option<Vec<u32>>) -> (r: Option<Value>)
    ensures
        match *o {
            Some(v) => r matches Some(Value::Reals(c)) && c@ == v@,
            None => r is None,
        },
{
    match o {
        Some(v) => Some(Value::Reals(copy_items(v))),
        None => None,
    }
}

/// The wire value of a member of an enumeration: its token.
pub(crate) fn choice_value<T: WireToken>(o: &Option<T>) -> (r: Option<Value>)
    ensures
        match *o {
            Some(x) => r matches Some(Value::Token(t)) && t@ == x.name() && T::named(t@) == Some(
                x,
            ),
            None => r is None,
        },
{
    match o {
        Some(x) => {
            proof {
                T::lemma_name_is_read(*x);
            }
            Some(Value::Token(x.write()))
        },
        None => None,
    }
}

/// The wire value of an optional list of members of an enumeration: their
/// tokens, in the list's order.
pub(crate) fn choices_value<T: WireToken>(o: &Option<Vec<T>>) -> (r: Option<Value>)
    ensures
        match *o {
            Some(v) => r matches Some(Value::Tokens(ts)) && all_named::<T>(ts@) && members::<T>(
                ts@,
            ) == v@,
            None => r is None,
        },
{
    match o {
        Some(v) => {
            let mut ts: Vec<String> = Vec::new();
            let mut i: usize = 0;
            while i < v.len()
                invariant
                    i <= v.len(),
                    ts@.len() == i,
                    forall|j: int| 0 <= j < i ==> T::named((#[trigger] ts@[j])@) == Some(v@[j]),
                decreases v.len() - i,
            {
                proof {
                    T::lemma_name_is_read(v@[i as int]);
                }
                ts.push(v[i].write());
                i += 1;
            }
            proof {
                assert(members::<T>(ts@) =~= v@);
            }
            Some(Value::Tokens(ts))
        },
        None => None,
    }
}

} // verus!
