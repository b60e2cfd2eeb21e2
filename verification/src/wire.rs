//! The typed values that unit properties carry on the wire.
//!
//! The bus protocol sends each unit setting as a `(key, value)` pair whose
//! value is drawn from a small union of shapes.  The union is mirrored here
//! as a tagged variant, so the marshaller's output is fully typed and its
//! contents can be stated exactly.

use vstd::prelude::*;

verus! {

/// One wire-typed value: the union of shapes a unit property can carry.
#[derive(Debug, Clone, PartialEq)]
pub enum WireValue {
    /// A plain string.
    Str(String),
    /// A boolean.
    Bool(bool),
    /// An unsigned 64-bit count (bytes, microseconds, or raw counts).
    U64(u64),
    /// A signed 32-bit value (scheduling policy and priority).
    I32(i32),
    /// A byte array (the CPU affinity bitmap).
    Bytes(Vec<u8>),
    /// A list of strings.
    StrList(Vec<String>),
    /// The executable start list: `(path, argv, ignore-failure)`.
    ExecList(Vec<(String, Vec<String>, bool)>),
    /// Bind mounts: `(source, destination, ignore-missing, flags)`.
    BindList(Vec<(String, String, bool, u64)>),
    /// Image mounts: `(source, destination, ignore-missing, options)`,
    /// options being `(partition label, option string)` pairs.
    ImageList(Vec<(String, String, bool, Vec<(String, String)>)>),
    /// Temporary file systems: `(destination, comma-joined options)`.
    PairList(Vec<(String, String)>),
}

/// The mathematical shape of a [`WireValue`].
pub enum WireValueView {
    Str(Seq<char>),
    Bool(bool),
    U64(u64),
    I32(i32),
    Bytes(Seq<u8>),
    StrList(Seq<Seq<char>>),
    ExecList(Seq<(Seq<char>, Seq<Seq<char>>, bool)>),
    BindList(Seq<(Seq<char>, Seq<char>, bool, u64)>),
    ImageList(Seq<(Seq<char>, Seq<char>, bool, Seq<(Seq<char>, Seq<char>)>)>),
    PairList(Seq<(Seq<char>, Seq<char>)>),
}

impl View for WireValue {
    type V = WireValueView;

    open spec fn view(&self) -> WireValueView {
        match self {
            WireValue::Str(s) => WireValueView::Str(s.deep_view()),
            WireValue::Bool(b) => WireValueView::Bool(*b),
            WireValue::U64(n) => WireValueView::U64(*n),
            WireValue::I32(n) => WireValueView::I32(*n),
            WireValue::Bytes(v) => WireValueView::Bytes(v.deep_view()),
            WireValue::StrList(v) => WireValueView::StrList(v.deep_view()),
            WireValue::ExecList(v) => WireValueView::ExecList(v.deep_view()),
            WireValue::BindList(v) => WireValueView::BindList(v.deep_view()),
            WireValue::ImageList(v) => WireValueView::ImageList(v.deep_view()),
            WireValue::PairList(v) => WireValueView::PairList(v.deep_view()),
        }
    }
}

impl DeepView for WireValue {
    type V = WireValueView;

    open spec fn deep_view(&self) -> WireValueView {
        self.view()
    }
}

/// One marshalled unit property: a key and its typed value.
#[derive(Debug, Clone, PartialEq)]
pub struct Property {
    pub key: String,
    pub value: WireValue,
}

/// The mathematical shape of a [`Property`].
pub struct PropertyView {
    pub key: Seq<char>,
    pub value: WireValueView,
}

impl View for Property {
    type V = PropertyView;

    open spec fn view(&self) -> PropertyView {
        PropertyView { key: self.key.deep_view(), value: self.value.deep_view() }
    }
}

impl DeepView for Property {
    type V = PropertyView;

    open spec fn deep_view(&self) -> PropertyView {
        self.view()
    }
}

/// Shorthand for one property in specification position.
pub open spec fn prop(key: Seq<char>, value: WireValueView) -> PropertyView {
    PropertyView { key, value }
}

/// Append one property; the marshaller's building block.
pub fn push_prop(props: &mut Vec<Property>, key: &str, value: WireValue)
    ensures
        final(props).deep_view() == old(props).deep_view().push(
            prop(key@, value@),
        ),
{
    let ghost value_view = value@;
    props.push(Property { key: key.to_owned(), value });
    proof {
        assert(props.deep_view() =~= old(props).deep_view().push(prop(key@, value_view)));
    }
}

} // verus!
