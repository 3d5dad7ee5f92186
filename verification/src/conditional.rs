//! Steps of a builder chain that are taken on a condition.

use vstd::prelude::*;

verus! {

/// `value` after `callback` where `predicate` holds, and `value` itself where it
/// does not.
pub fn when<T>(value: T, predicate: bool, callback: impl FnOnce(T) -> T) -> (result: T)
    requires
        predicate ==> callback.requires((value,)),
    ensures
        predicate ==> callback.ensures((value,), result),
        !predicate ==> result == value,
{
    if predicate {
        callback(value)
    } else {
        value
    }
}

/// `value` after `callback`, which also gets what `option` holds; `value` itself
/// where `option` holds nothing.
pub fn when_some<T, U>(value: T, option: Option<U>, callback: impl FnOnce(T, U) -> T) -> (result: T)
    requires
        option matches Some(inner) ==> callback.requires((value, inner)),
    ensures
        option matches Some(inner) ==> callback.ensures((value, inner), result),
        option.is_none() ==> result == value,
{
    match option {
        Some(inner) => callback(value, inner),
        None => value,
    }
}

/// `value` after `true_callback` where `predicate` holds, and after
/// `false_callback` where it does not.
pub fn when_else<T>(
    value: T,
    predicate: bool,
    true_callback: impl FnOnce(T) -> T,
    false_callback: impl FnOnce(T) -> T,
) -> (result: T)
    requires
        predicate ==> true_callback.requires((value,)),
        !predicate ==> false_callback.requires((value,)),
    ensures
        predicate ==> true_callback.ensures((value,), result),
        !predicate ==> false_callback.ensures((value,), result),
{
    if predicate {
        true_callback(value)
    } else {
        false_callback(value)
    }
}

} // verus!
