//! Standard input and output redirection for the transient service.
//!
//! Each stream marshals to a single wire property whose key is a fixed
//! prefix (`StandardInput`, `StandardOutput`, `StandardError`) joined with
//! a suffix that names the redirection kind, and whose value names either
//! the kind again or the file path.

use vstd::prelude::*;

verus! {

/// One redirection choice, shared by inputs and outputs.
#[derive(Debug, Clone)]
pub enum Priv {
    Inherit,
    Null,
    Journal,
    File(String),
    Truncate(String),
    Append(String),
}

/// The mathematical shape of a redirection choice.
pub enum IoView {
    Inherit,
    Null,
    Journal,
    File(Seq<char>),
    Truncate(Seq<char>),
    Append(Seq<char>),
}

impl View for Priv {
    type V = IoView;

    open spec fn view(&self) -> IoView {
        match self {
            Priv::Inherit => IoView::Inherit,
            Priv::Null => IoView::Null,
            Priv::Journal => IoView::Journal,
            Priv::File(p) => IoView::File(p.deep_view()),
            Priv::Truncate(p) => IoView::Truncate(p.deep_view()),
            Priv::Append(p) => IoView::Append(p.deep_view()),
        }
    }
}

/// The key suffix a redirection marshals under.
pub open spec fn io_suffix(s: IoView) -> Seq<char> {
    match s {
        IoView::Inherit => ""@,
        IoView::Null => ""@,
        IoView::Journal => ""@,
        IoView::File(_) => "File"@,
        IoView::Truncate(_) => "FileToTruncate"@,
        IoView::Append(_) => "FileToAppend"@,
    }
}

/// The value a redirection marshals to: the kind's own name, or the path.
pub open spec fn io_value(s: IoView) -> Seq<char> {
    match s {
        IoView::Inherit => "inherit"@,
        IoView::Null => "null"@,
        IoView::Journal => "journal"@,
        IoView::File(p) => p,
        IoView::Truncate(p) => p,
        IoView::Append(p) => p,
    }
}

impl Priv {
    fn marshal(self) -> (r: (&'static str, String))
        ensures
            r.0@ == io_suffix(self@),
            r.1@ == io_value(self@),
    {
        match self {
            Priv::Inherit => ("", String::from_str("inherit")),
            Priv::Null => ("", String::from_str("null")),
            Priv::Journal => ("", String::from_str("journal")),
            Priv::File(x) => ("File", x),
            Priv::Truncate(x) => ("FileToTruncate", x),
            Priv::Append(x) => ("FileToAppend", x),
        }
    }

    pub(crate) fn marshal_ref(&self) -> (r: (&'static str, String))
        ensures
            r.0@ == io_suffix(self@),
            r.1@ == io_value(self@),
    {
        match self {
            Priv::Inherit => ("", String::from_str("inherit")),
            Priv::Null => ("", String::from_str("null")),
            Priv::Journal => ("", String::from_str("journal")),
            Priv::File(x) => ("File", x.clone()),
            Priv::Truncate(x) => ("FileToTruncate", x.clone()),
            Priv::Append(x) => ("FileToAppend", x.clone()),
        }
    }
}

/// The description of an input.
#[derive(Debug, Clone)]
pub struct InputSpec(Priv);

impl View for InputSpec {
    type V = IoView;

    closed spec fn view(&self) -> IoView {
        self.0@
    }
}

impl DeepView for InputSpec {
    type V = IoView;

    open spec fn deep_view(&self) -> IoView {
        self.view()
    }
}

impl InputSpec {
    /// Connect `/dev/null` to the input.
    pub fn null() -> (r: Self)
        ensures
            r@ == IoView::Null,
    {
        Self(Priv::Null)
    }

    /// Connect the file at the given path to the input.
    pub fn file(path: &str) -> (r: Self)
        ensures
            r@ == IoView::File(path@),
    {
        Self(Priv::File(path.to_owned()))
    }

    pub(crate) fn as_priv(&self) -> (r: &Priv)
        ensures
            r@ == self@,
    {
        &self.0
    }
}

/// Render an input as its key suffix and value.
pub fn marshal_input(spec: InputSpec) -> (r: (&'static str, String))
    ensures
        r.0@ == io_suffix(spec@),
        r.1@ == io_value(spec@),
{
    spec.0.marshal()
}

/// The description of an output.
#[derive(Debug, Clone)]
pub struct OutputSpec(Priv);

impl View for OutputSpec {
    type V = IoView;

    closed spec fn view(&self) -> IoView {
        self.0@
    }
}

impl DeepView for OutputSpec {
    type V = IoView;

    open spec fn deep_view(&self) -> IoView {
        self.view()
    }
}

impl OutputSpec {
    /// For `stdout`, use the same file as `stdin`.  For `stderr`, use the
    /// same file as `stdout`.
    pub fn inherit() -> (r: Self)
        ensures
            r@ == IoView::Inherit,
    {
        Self(Priv::Inherit)
    }

    /// Connect `/dev/null` to the output.
    pub fn null() -> (r: Self)
        ensures
            r@ == IoView::Null,
    {
        Self(Priv::Null)
    }

    /// Log the output into the system journal.
    pub fn journal() -> (r: Self)
        ensures
            r@ == IoView::Journal,
    {
        Self(Priv::Journal)
    }

    /// Write the output to the file at the given path from offset 0,
    /// creating it if missing.
    pub fn file(path: &str) -> (r: Self)
        ensures
            r@ == IoView::File(path@),
    {
        Self(Priv::File(path.to_owned()))
    }

    /// Like [`OutputSpec::file`], but the file is truncated first.
    pub fn truncate(path: &str) -> (r: Self)
        ensures
            r@ == IoView::Truncate(path@),
    {
        Self(Priv::Truncate(path.to_owned()))
    }

    /// Like [`OutputSpec::file`], but the file is written from its end.
    pub fn append(path: &str) -> (r: Self)
        ensures
            r@ == IoView::Append(path@),
    {
        Self(Priv::Append(path.to_owned()))
    }

    pub(crate) fn as_priv(&self) -> (r: &Priv)
        ensures
            r@ == self@,
    {
        &self.0
    }
}

/// Render an output as its key suffix and value.
pub fn marshal_output(spec: OutputSpec) -> (r: (&'static str, String))
    ensures
        r.0@ == io_suffix(spec@),
        r.1@ == io_value(spec@),
{
    spec.0.marshal()
}

} // verus!
