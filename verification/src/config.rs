//! Descriptions as trees of keyed values, and how single values are read.
//!
//! A theme is described in some configuration format. Whatever the format,
//! the description reaches this library as a [`Value`]: a tree of tables,
//! lists, numbers, texts and flags.

use vstd::prelude::*;

use crate::level::Level;

verus! {

/// A node of a description.
#[derive(Debug)]
pub enum Value {
    Null,
    Bool(bool),
    /// A whole number that is not negative.
    Integer(u64),
    /// Any other number, in thousandths.
    Decimal(i64),
    Text(String),
    List(Vec<Value>),
    /// Keyed values, in the order in which they were written.
    Table(Vec<(String, Value)>),
}

/// Why a description is not that of a theme.
#[derive(PartialEq, Eq, Structural, Clone, Copy, Debug)]
pub enum ThemeFault {
    /// A field that must be there is not.
    MissingField,
    /// A value is not of the kind that its field asks for.
    UnknownType,
    /// The lower bound of a range lies above its upper bound.
    RangeInverted,
}

/// The value under the first of `entries` that is keyed `key`.
pub open spec fn field(entries: Seq<(String, Value)>, key: Seq<char>) -> Option<Value>
    decreases entries.len(),
{
    if entries.len() == 0 {
        None
    } else {
        match field(entries.drop_last(), key) {
            Some(v) => Some(v),
            None => if entries.last().0@ == key {
                Some(entries.last().1)
            } else {
                None
            },
        }
    }
}

/// A key that has a value among the first `n` entries has the same value
/// among all of them.
pub proof fn lemma_field_prefix(entries: Seq<(String, Value)>, key: Seq<char>, n: int)
    requires
        0 <= n <= entries.len(),
        field(entries.take(n), key) is Some,
    ensures
        field(entries, key) == field(entries.take(n), key),
    decreases entries.len() - n,
{
    if n < entries.len() {
        assert(entries.take(n + 1).drop_last() =~= entries.take(n));
        lemma_field_prefix(entries, key, n + 1);
    } else {
        assert(entries.take(n) =~= entries);
    }
}

/// Looks up the value under the first of `entries` that is keyed `key`.
pub fn find_field<'a>(entries: &'a Vec<(String, Value)>, key: &str) -> (found: Option<&'a Value>)
    ensures
        match found {
            Some(v) => field(entries@, key@) == Some(*v),
            None => field(entries@, key@) is None,
        },
{
    let wanted = key.to_owned();
    let mut i: usize = 0;
    assert(entries@.take(0) =~= Seq::empty());
    while i < entries.len()
        invariant
            i <= entries.len(),
            wanted@ == key@,
            field(entries@.take(i as int), key@) is None,
        decreases entries.len() - i,
    {
        proof {
            assert(entries@.take(i + 1).drop_last() =~= entries@.take(i as int));
            assert(entries@.take(i + 1).last() == entries@[i as int]);
        }
        if entries[i].0 == wanted {
            proof {
                lemma_field_prefix(entries@, key@, i + 1);
            }
            return Some(&entries[i].1);
        }
        i += 1;
    }
    assert(entries@.take(entries@.len() as int) =~= entries@);
    None
}

/// The level that `v` stands for: a whole number counts in ones, any other
/// number is taken by its thousandths. A negative number is no level, nor is
/// one beyond the range of levels.
pub open spec fn level_of(v: Value) -> Result<Level, ThemeFault> {
    match v {
        Value::Integer(n) => if n * 1000 <= u32::MAX {
            Ok((n * 1000) as Level)
        } else {
            Err(ThemeFault::UnknownType)
        },
        Value::Decimal(d) => if 0 <= d <= u32::MAX {
            Ok(d as Level)
        } else {
            Err(ThemeFault::UnknownType)
        },
        _ => Err(ThemeFault::UnknownType),
    }
}

/// The count that `v` stands for: a whole number within the range of counts.
pub open spec fn count_of(v: Value) -> Result<u32, ThemeFault> {
    match v {
        Value::Integer(n) => if n <= u32::MAX {
            Ok(n as u32)
        } else {
            Err(ThemeFault::UnknownType)
        },
        _ => Err(ThemeFault::UnknownType),
    }
}

/// The delay in milliseconds that `v` stands for: a whole number.
pub open spec fn delay_of(v: Value) -> Result<u64, ThemeFault> {
    match v {
        Value::Integer(n) => Ok(n),
        _ => Err(ThemeFault::UnknownType),
    }
}

/// The flag that `v` stands for.
pub open spec fn flag_of(v: Value) -> Result<bool, ThemeFault> {
    match v {
        Value::Bool(b) => Ok(b),
        _ => Err(ThemeFault::UnknownType),
    }
}

/// The text that `v` stands for.
pub open spec fn text_of(v: Value) -> Result<Seq<char>, ThemeFault> {
    match v {
        Value::Text(s) => Ok(s@),
        _ => Err(ThemeFault::UnknownType),
    }
}

/// The two values of `v` if `v` is a list of two.
pub open spec fn pair_of(v: Value) -> Result<(Value, Value), ThemeFault> {
    match v {
        Value::List(items) => if items@.len() == 2 {
            Ok((items@[0], items@[1]))
        } else {
            Err(ThemeFault::UnknownType)
        },
        _ => Err(ThemeFault::UnknownType),
    }
}

/// The range of levels that `v` stands for: a list of two levels, the
/// first not above the second.
pub open spec fn level_range_of(v: Value) -> Result<(Level, Level), ThemeFault> {
    match pair_of(v) {
        Ok((low, high)) => match (level_of(low), level_of(high)) {
            (Ok(a), Ok(b)) => if a <= b {
                Ok((a, b))
            } else {
                Err(ThemeFault::RangeInverted)
            },
            _ => Err(ThemeFault::UnknownType),
        },
        Err(fault) => Err(fault),
    }
}

/// The range of counts that `v` stands for.
pub open spec fn count_range_of(v: Value) -> Result<(u32, u32), ThemeFault> {
    match pair_of(v) {
        Ok((low, high)) => match (count_of(low), count_of(high)) {
            (Ok(a), Ok(b)) => if a <= b {
                Ok((a, b))
            } else {
                Err(ThemeFault::RangeInverted)
            },
            _ => Err(ThemeFault::UnknownType),
        },
        Err(fault) => Err(fault),
    }
}

/// The range of delays that `v` stands for.
pub open spec fn delay_range_of(v: Value) -> Result<(u64, u64), ThemeFault> {
    match pair_of(v) {
        Ok((low, high)) => match (delay_of(low), delay_of(high)) {
            (Ok(a), Ok(b)) => if a <= b {
                Ok((a, b))
            } else {
                Err(ThemeFault::RangeInverted)
            },
            _ => Err(ThemeFault::UnknownType),
        },
        Err(fault) => Err(fault),
    }
}

/// Reads a level, see [`level_of`].
pub fn read_level(v: &Value) -> (level: Result<Level, ThemeFault>)
    ensures
        level == level_of(*v),
{
    match v {
        Value::Integer(n) => {
            if *n <= 4294967 {
                Ok((*n * 1000) as Level)
            } else {
                Err(ThemeFault::UnknownType)
            }
        },
        Value::Decimal(d) => {
            if 0 <= *d && *d <= 0xffff_ffff {
                Ok(*d as Level)
            } else {
                Err(ThemeFault::UnknownType)
            }
        },
        _ => Err(ThemeFault::UnknownType),
    }
}

/// Reads a count, see [`count_of`].
pub fn read_count(v: &Value) -> (count: Result<u32, ThemeFault>)
    ensures
        count == count_of(*v),
{
    match v {
        Value::Integer(n) => {
            if *n <= 0xffff_ffff {
                Ok(*n as u32)
            } else {
                Err(ThemeFault::UnknownType)
            }
        },
        _ => Err(ThemeFault::UnknownType),
    }
}

/// Reads a delay, see [`delay_of`].
pub fn read_delay(v: &Value) -> (delay: Result<u64, ThemeFault>)
    ensures
        delay == delay_of(*v),
{
    match v {
        Value::Integer(n) => Ok(*n),
        _ => Err(ThemeFault::UnknownType),
    }
}

/// Reads a flag, see [`flag_of`].
pub fn read_flag(v: &Value) -> (flag: Result<bool, ThemeFault>)
    ensures
        flag == flag_of(*v),
{
    match v {
        Value::Bool(b) => Ok(*b),
        _ => Err(ThemeFault::UnknownType),
    }
}

/// Reads a text, see [`text_of`].
pub fn read_text(v: &Value) -> (text: Result<String, ThemeFault>)
    ensures
        match text {
            Ok(s) => text_of(*v) == Ok::<Seq<char>, ThemeFault>(s@),
            Err(fault) => text_of(*v) == Err::<Seq<char>, ThemeFault>(fault),
        },
{
    match v {
        Value::Text(s) => Ok(s.clone()),
        _ => Err(ThemeFault::UnknownType),
    }
}

/// Reads the two values of a list of two, see [`pair_of`].
pub fn read_pair<'a>(v: &'a Value) -> (pair: Result<(&'a Value, &'a Value), ThemeFault>)
    ensures
        match pair {
            Ok((low, high)) => pair_of(*v) == Ok::<(Value, Value), ThemeFault>((*low, *high)),
            Err(fault) => pair_of(*v) == Err::<(Value, Value), ThemeFault>(fault),
        },
{
    match v {
        Value::List(items) => {
            if items.len() == 2 {
                Ok((&items[0], &items[1]))
            } else {
                Err(ThemeFault::UnknownType)
            }
        },
        _ => Err(ThemeFault::UnknownType),
    }
}

/// Reads a range of levels, see [`level_range_of`].
pub fn read_level_range(v: &Value) -> (range: Result<(Level, Level), ThemeFault>)
    ensures
        range == level_range_of(*v),
        range matches Ok(r) ==> r.0 <= r.1,
{
    match read_pair(v) {
        Ok((low, high)) => match (read_level(low), read_level(high)) {
            (Ok(a), Ok(b)) => {
                if a <= b {
                    Ok((a, b))
                } else {
                    Err(ThemeFault::RangeInverted)
                }
            },
            _ => Err(ThemeFault::UnknownType),
        },
        Err(fault) => Err(fault),
    }
}

/// Reads a range of counts, see [`count_range_of`].
pub fn read_count_range(v: &Value) -> (range: Result<(u32, u32), ThemeFault>)
    ensures
        range == count_range_of(*v),
        range matches Ok(r) ==> r.0 <= r.1,
{
    match read_pair(v) {
        Ok((low, high)) => match (read_count(low), read_count(high)) {
            (Ok(a), Ok(b)) => {
                if a <= b {
                    Ok((a, b))
                } else {
                    Err(ThemeFault::RangeInverted)
                }
            },
            _ => Err(ThemeFault::UnknownType),
        },
        Err(fault) => Err(fault),
    }
}

/// Reads a range of delays, see [`delay_range_of`].
pub fn read_delay_range(v: &Value) -> (range: Result<(u64, u64), ThemeFault>)
    ensures
        range == delay_range_of(*v),
        range matches Ok(r) ==> r.0 <= r.1,
{
    match read_pair(v) {
        Ok((low, high)) => match (read_delay(low), read_delay(high)) {
            (Ok(a), Ok(b)) => {
                if a <= b {
                    Ok((a, b))
                } else {
                    Err(ThemeFault::RangeInverted)
                }
            },
            _ => Err(ThemeFault::UnknownType),
        },
        Err(fault) => Err(fault),
    }
}

} // verus!
