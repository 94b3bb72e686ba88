//! A model of the dynamically typed values exchanged with the host runtime.
//!
//! Host call arguments arrive untyped; the codec modules validate them and
//! convert them into exact native enumeration representations. [`HostValue`]
//! captures the shapes the bridge inspects or produces: atoms (named
//! symbols), booleans, unsigned integers, text, tuples and lists.

use vstd::prelude::*;

verus! {

/// One dynamically typed host value.
#[derive(Debug, PartialEq, Eq)]
pub enum HostValue {
    /// A named symbol, carried by its name.
    Atom(String),
    Bool(bool),
    /// An unsigned 32-bit integer, the shape of raw native constants.
    Int(u32),
    Text(String),
    Tuple(Vec<HostValue>),
    List(Vec<HostValue>),
}

impl HostValue {
    /// The value is the atom with the given name.
    pub open spec fn is_atom(self, name: Seq<char>) -> bool {
        self matches HostValue::Atom(s) && s@ == name
    }

    /// The value is the two-element tuple `{other, code}`: the escape hatch
    /// for native constants the bridge does not enumerate by name.
    pub open spec fn is_other_tuple(self, code: u32) -> bool {
        self matches HostValue::Tuple(items) && items@.len() == 2
            && items@[0].is_atom("other"@) && items@[1] == HostValue::Int(code)
    }
}

/// Compares an atom's name with a literal symbol name.
pub fn atom_is(s: &String, lit: &str) -> (r: bool)
    ensures
        r == (s@ == lit@),
{
    let l: String = String::from_str(lit);
    *s == l
}

/// The raw native code carried by a well-formed `{other, code}` tuple, if
/// the value has exactly that shape: two elements, the first the literal
/// symbol `other`, the second an unsigned 32-bit integer.
pub open spec fn spec_decode_other(v: HostValue) -> Option<u32> {
    match v {
        HostValue::Tuple(items) => {
            if items@.len() == 2 {
                match items@[0] {
                    HostValue::Atom(name) => {
                        if name@ == "other"@ {
                            match items@[1] {
                                HostValue::Int(code) => Some(code),
                                _ => None,
                            }
                        } else {
                            None
                        }
                    },
                    _ => None,
                }
            } else {
                None
            }
        },
        _ => None,
    }
}

/// Validates the `{other, code}` escape shape and extracts the raw code;
/// any other shape yields nothing, and the caller reports an argument
/// error.
pub fn decode_other(v: &HostValue) -> (r: Option<u32>)
    ensures
        r == spec_decode_other(*v),
{
    match v {
        HostValue::Tuple(items) => {
            if items.len() == 2 {
                match &items[0] {
                    HostValue::Atom(name) => {
                        if atom_is(name, "other") {
                            match &items[1] {
                                HostValue::Int(code) => Some(*code),
                                _ => None,
                            }
                        } else {
                            None
                        }
                    },
                    _ => None,
                }
            } else {
                None
            }
        },
        _ => None,
    }
}

/// A text field read from a native object. The native side reports such a
/// field as present text, as absent, or as bytes that are not valid UTF-8;
/// the bridge treats the last case as a decode failure, distinct from any
/// engine diagnostic.
#[derive(Debug, Clone, PartialEq, Eq)]
pub enum NativeText {
    /// The field is present and decodes as UTF-8.
    Valid(String),
    /// The native object carries no value for the field.
    Absent,
    /// The field is present but its bytes are not valid UTF-8.
    NotUtf8,
}

impl NativeText {
    /// The field can be rendered for the host: it is either present as
    /// valid UTF-8 or absent.
    pub open spec fn is_decodable(self) -> bool {
        !(self is NotUtf8)
    }
}

/// How a decodable native text field reads as an optional host string:
/// present text as that text, an absent field as nothing.
pub open spec fn is_opt_text(t: NativeText, o: Option<String>) -> bool {
    match t {
        NativeText::Valid(s) => o matches Some(x) && x@ == s@,
        NativeText::Absent => o is None,
        NativeText::NotUtf8 => false,
    }
}

/// Renders a native text field as an optional host string: present text as
/// the text, an absent field as nothing, and a field that is not valid
/// UTF-8 as a decode failure.
pub fn string_or_null(t: &NativeText) -> (r: Option<Option<String>>)
    ensures
        r is Some <==> t.is_decodable(),
        r matches Some(o) ==> is_opt_text(*t, o),
{
    match t {
        NativeText::Valid(s) => Some(Some(s.clone())),
        NativeText::Absent => Some(None),
        NativeText::NotUtf8 => None,
    }
}

/// Builds the `{other, code}` escape tuple for a raw native constant.
pub fn other_tuple(code: u32) -> (r: HostValue)
    ensures
        r.is_other_tuple(code),
{
    let mut items: Vec<HostValue> = Vec::new();
    items.push(HostValue::Atom(String::from_str("other")));
    items.push(HostValue::Int(code));
    HostValue::Tuple(items)
}

} // verus!
