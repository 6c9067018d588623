//! Reading typed, defaulted settings out of an option mapping.
//!
//! A name that is not bound and a name bound to the "not provided" marker
//! are the same thing: both leave the setting at its default.

use vstd::prelude::*;
use crate::error::{BridgeError, ErrorView};
use crate::options::{OptionMap, OptionValue, ValueView};

verus! {

/// The value that `options` supplies for `key`: none where the name is not
/// bound or is bound to the marker.
pub open spec fn supplied(options: Map<Seq<char>, ValueView>, key: Seq<char>) -> Option<ValueView> {
    if options.contains_key(key) && options[key] != ValueView::Absent {
        Some(options[key])
    } else {
        None
    }
}

/// The string that `options` supplies for `key`, or the name itself as the
/// failure where the value supplied is not a string.
pub open spec fn text_setting(options: Map<Seq<char>, ValueView>, key: Seq<char>) -> Result<
    Option<Seq<char>>,
    Seq<char>,
> {
    match supplied(options, key) {
        None => Ok(None),
        Some(ValueView::Text(text)) => Ok(Some(text)),
        Some(_) => Err(key),
    }
}

/// The number that `options` supplies for `key`, or the name itself as the
/// failure where the value supplied is not a number.
pub open spec fn number_setting(options: Map<Seq<char>, ValueView>, key: Seq<char>) -> Result<
    Option<u32>,
    Seq<char>,
> {
    match supplied(options, key) {
        None => Ok(None),
        Some(ValueView::Number(bits)) => Ok(Some(bits)),
        Some(_) => Err(key),
    }
}

/// The failure for a value of `key` that is not of its target type.
pub open spec fn decode_failure(options: &OptionMap, key: Seq<char>) -> ErrorView {
    ErrorView::Decode { key, keys: options.key_seq() }
}

/// Builds the failure for a value of `key` that is not of its target type.
fn refuse(options: &OptionMap, key: &str) -> (error: BridgeError)
    ensures
        error@ == decode_failure(options, key@),
{
    BridgeError::Decode { key: key.to_owned(), keys: options.keys() }
}

/// Reads the string setting `key`. Gives `None` where nothing is supplied,
/// and a decode failure that names `key` where the value is not a string.
pub fn read_text(options: &OptionMap, key: &str) -> (r: Result<Option<String>, BridgeError>)
    ensures
        match text_setting(options@, key@) {
            Ok(None) => r matches Ok(None),
            Ok(Some(text)) => r matches Ok(Some(s)) && s@ == text,
            Err(name) => r matches Err(e) && e@ == decode_failure(options, name),
        },
{
    match options.get(key) {
        None => Ok(None),
        Some(OptionValue::Absent) => Ok(None),
        Some(OptionValue::Text(text)) => Ok(Some(text.clone())),
        Some(_) => Err(refuse(options, key)),
    }
}

/// Reads the number setting `key`, as the bit pattern supplied. Gives `None`
/// where nothing is supplied, and a decode failure that names `key` where the
/// value is not a number.
pub fn read_number(options: &OptionMap, key: &str) -> (r: Result<Option<u32>, BridgeError>)
    ensures
        match number_setting(options@, key@) {
            Ok(setting) => r == Ok::<Option<u32>, BridgeError>(setting),
            Err(name) => r matches Err(e) && e@ == decode_failure(options, name),
        },
{
    match options.get(key) {
        None => Ok(None),
        Some(OptionValue::Absent) => Ok(None),
        Some(OptionValue::Number(bits)) => Ok(Some(*bits)),
        Some(_) => Err(refuse(options, key)),
    }
}

/// Binding a name to the marker supplies as little as not binding it.
pub proof fn lemma_marker_supplies_nothing(
    options: Map<Seq<char>, ValueView>,
    marked: Seq<char>,
    key: Seq<char>,
)
    ensures
        supplied(options.insert(marked, ValueView::Absent), key) == supplied(
            options.remove(marked),
            key,
        ),
        text_setting(options.insert(marked, ValueView::Absent), key) == text_setting(
            options.remove(marked),
            key,
        ),
        number_setting(options.insert(marked, ValueView::Absent), key) == number_setting(
            options.remove(marked),
            key,
        ),
{
}

} // verus!
