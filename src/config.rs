//! Configuration: the formatting policy and the [`Expander`] builder.
use vstd::prelude::*;

verus! {

/// Rust edition to format for.
#[derive(Debug, Clone, Copy, PartialEq, Eq, Structural)]
pub enum Edition {
    Unspecified,
    _2015,
    _2018,
    _2021,
}

/// The text that `rustfmt --edition=` receives for an edition.
pub open spec fn edition_text(e: Edition) -> Seq<char> {
    match e {
        Edition::Unspecified => seq![],
        Edition::_2015 => seq!['2', '0', '1', '5'],
        Edition::_2018 => seq!['2', '0', '1', '8'],
        Edition::_2021 => seq!['2', '0', '2', '1'],
    }
}

impl Default for Edition {
    fn default() -> (r: Self)
        ensures
            r == Edition::Unspecified,
    {
        Edition::Unspecified
    }
}

impl Edition {
    /// The edition as `rustfmt` spells it; empty when unspecified.
    pub fn to_string(&self) -> (r: String)
        ensures
            r@ == edition_text(*self),
    {
        let mut s = String::new();
        match self {
            Edition::Unspecified => {},
            Edition::_2015 => {
                s.push('2');
                s.push('0');
                s.push('1');
                s.push('5');
            },
            Edition::_2018 => {
                s.push('2');
                s.push('0');
                s.push('1');
                s.push('8');
            },
            Edition::_2021 => {
                s.push('2');
                s.push('0');
                s.push('2');
                s.push('1');
            },
        }
        assert(s@ =~= edition_text(*self));
        s
    }
}

/// The toolchain channel that `rustfmt` is run from.
#[derive(Debug, Clone, Copy, PartialEq, Eq, Structural)]
pub enum Channel {
    Default,
    Stable,
    Beta,
    Nightly,
}

/// The toolchain selector passed to `rustfmt`; empty for the default channel.
pub open spec fn channel_text(c: Channel) -> Seq<char> {
    match c {
        Channel::Default => seq![],
        Channel::Stable => seq!['+', 's', 't', 'a', 'b', 'l', 'e'],
        Channel::Beta => seq!['+', 'b', 'e', 't', 'a'],
        Channel::Nightly => seq!['+', 'n', 'i', 'g', 'h', 't', 'l', 'y'],
    }
}

impl Default for Channel {
    fn default() -> (r: Self)
        ensures
            r == Channel::Default,
    {
        Channel::Default
    }
}

/// Appends every character of `t` to `s`.
fn push_all(s: &mut String, t: &[char])
    ensures
        final(s)@ == old(s)@ + t@,
{
    let mut i: usize = 0;
    while i < t.len()
        invariant
            i <= t@.len(),
            s@ == old(s)@ + t@.subrange(0, i as int),
        decreases t@.len() - i,
    {
        s.push(t[i]);
        i = i + 1;
        assert(t@.subrange(0, i as int) =~= t@.subrange(0, i - 1).push(t@[i - 1]));
    }
    assert(t@.subrange(0, i as int) =~= t@);
}

impl Channel {
    /// The channel as a `rustup` toolchain selector (`+stable`); empty for the default.
    pub fn to_string(&self) -> (r: String)
        ensures
            r@ == channel_text(*self),
    {
        let mut s = String::new();
        match self {
            Channel::Default => {},
            Channel::Stable => push_all(&mut s, &['+', 's', 't', 'a', 'b', 'l', 'e']),
            Channel::Beta => push_all(&mut s, &['+', 'b', 'e', 't', 'a']),
            Channel::Nightly => push_all(&mut s, &['+', 'n', 'i', 'g', 'h', 't', 'l', 'y']),
        }
        assert(s@ =~= channel_text(*self));
        s
    }
}

/// Whether and how the generated text is formatted before it is written.
#[derive(Debug, Clone, Copy, PartialEq, Eq, Structural)]
pub enum RustFmt {
    Yes { edition: Edition, channel: Channel, allow_failure: bool },
    No,
}

impl Default for RustFmt {
    fn default() -> (r: Self)
        ensures
            r == RustFmt::No,
    {
        RustFmt::No
    }
}

impl From<Edition> for RustFmt {
    fn from(edition: Edition) -> (r: Self)
        ensures
            r == (RustFmt::Yes { edition, channel: Channel::Default, allow_failure: false }),
    {
        RustFmt::Yes { edition, channel: Channel::Default, allow_failure: false }
    }
}

impl vstd::std_specs::convert::FromSpecImpl<Edition> for RustFmt {
    open spec fn obeys_from_spec() -> bool {
        true
    }

    open spec fn from_spec(edition: Edition) -> RustFmt {
        RustFmt::Yes { edition, channel: Channel::Default, allow_failure: false }
    }
}

/// The arguments `rustfmt` is run with: the channel selector unless it is the
/// default, the edition, output to stdout, and input from stdin.
pub open spec fn rustfmt_args_spec(channel: Channel, edition: Edition) -> Seq<Seq<char>> {
    let tail = seq![
        seq!['-', '-', 'e', 'd', 'i', 't', 'i', 'o', 'n', '='] + edition_text(edition),
        seq!['-', '-', 'e', 'm', 'i', 't', '=', 's', 't', 'd', 'o', 'u', 't'],
        seq!['-', '-'],
    ];
    if channel == Channel::Default {
        tail
    } else {
        seq![channel_text(channel)] + tail
    }
}

/// Builds the argument list that `rustfmt` is run with.
pub fn rustfmt_args(channel: Channel, edition: Edition) -> (r: Vec<String>)
    ensures
        r@.map_values(|a: String| a@) == rustfmt_args_spec(channel, edition),
{
    let mut args: Vec<String> = Vec::new();
    if channel != Channel::Default {
        args.push(channel.to_string());
    }
    let mut e = String::new();
    push_all(&mut e, &['-', '-', 'e', 'd', 'i', 't', 'i', 'o', 'n', '=']);
    let ed = edition.to_string();
    e.append(ed.as_str());
    args.push(e);
    let mut m = String::new();
    push_all(&mut m, &['-', '-', 'e', 'm', 'i', 't', '=', 's', 't', 'd', 'o', 'u', 't']);
    args.push(m);
    let mut d = String::new();
    push_all(&mut d, &['-', '-']);
    args.push(d);
    assert(args@.map_values(|a: String| a@) =~= rustfmt_args_spec(channel, edition));
    args
}

/// Replaces a tokenstream by an `include!` of a file that holds it.
#[derive(Debug)]
pub struct Expander {
    /// Leave the input as it is (`true`) or write it to a file (`false`).
    dry: bool,
    /// Report the destination file on the diagnostic channel.
    verbose: bool,
    /// Base of the generated file's name; a digest and `.rs` are appended.
    filename_base: String,
    /// Header written before the content, already wrapped as a comment.
    comment: Option<String>,
    /// Formatting policy.
    rustfmt: RustFmt,
}

/// `/* c */` and a line break: the header that a comment becomes.
pub open spec fn comment_header_spec(c: Seq<char>) -> Seq<char> {
    seq!['/', '*', ' '] + c + seq![' ', '*', '/', '\n']
}

impl Default for Expander {
    /// An expander with an empty base name, no header and no formatting.
    fn default() -> (r: Self)
        ensures
            !r.spec_dry(),
            !r.spec_verbose(),
            r.spec_filename_base() == Seq::<char>::empty(),
            r.spec_header() == None::<Seq<char>>,
            r.spec_rustfmt() == RustFmt::No,
    {
        let r = Expander::new("");
        proof {
            reveal_strlit("");
        }
        assert(r.spec_filename_base() =~= Seq::<char>::empty());
        r
    }
}

impl Expander {
    pub closed spec fn spec_dry(&self) -> bool {
        self.dry
    }

    pub closed spec fn spec_verbose(&self) -> bool {
        self.verbose
    }

    pub closed spec fn spec_filename_base(&self) -> Seq<char> {
        self.filename_base@
    }

    pub closed spec fn spec_header(&self) -> Option<Seq<char>> {
        match self.comment {
            Some(c) => Some(c@),
            None => None,
        }
    }

    pub closed spec fn spec_rustfmt(&self) -> RustFmt {
        self.rustfmt
    }

    /// Create a new expander. The generated file is named
    /// `{filename_base}-{digest}.rs`, which keeps different contents apart.
    pub fn new(filename_base: &str) -> (r: Self)
        ensures
            !r.spec_dry(),
            !r.spec_verbose(),
            r.spec_filename_base() == filename_base@,
            r.spec_header() == None::<Seq<char>>,
            r.spec_rustfmt() == RustFmt::No,
    {
        Expander {
            dry: false,
            verbose: false,
            filename_base: filename_base.to_owned(),
            comment: None,
            rustfmt: RustFmt::No,
        }
    }

    /// Add a header comment, or remove it with `None`.
    pub fn add_comment(self, comment: Option<String>) -> (r: Self)
        ensures
            r.spec_header() == (match comment {
                Some(c) => Some(comment_header_spec(c@)),
                None => None::<Seq<char>>,
            }),
            r.spec_dry() == self.spec_dry(),
            r.spec_verbose() == self.spec_verbose(),
            r.spec_filename_base() == self.spec_filename_base(),
            r.spec_rustfmt() == self.spec_rustfmt(),
    {
        let header = match comment {
            Some(c) => Some(crate::reference::comment_header(&c)),
            None => None,
        };
        Expander { comment: header, ..self }
    }

    /// Format the resulting file with `rustfmt` for the given edition;
    /// a formatter failure is fatal.
    pub fn fmt(self, edition: Edition) -> (r: Self)
        ensures
            r.spec_rustfmt() == (RustFmt::Yes { edition, channel: Channel::Default, allow_failure: false }),
            r.spec_dry() == self.spec_dry(),
            r.spec_verbose() == self.spec_verbose(),
            r.spec_filename_base() == self.spec_filename_base(),
            r.spec_header() == self.spec_header(),
    {
        Expander { rustfmt: RustFmt::Yes { edition, channel: Channel::Default, allow_failure: false }, ..self }
    }

    /// Format the resulting file, with the channel and whether a formatter
    /// failure is tolerated. A later call of [`Expander::fmt`] overrides it.
    pub fn fmt_full(self, channel: Channel, edition: Edition, allow_failure: bool) -> (r: Self)
        ensures
            r.spec_rustfmt() == (RustFmt::Yes { edition, channel, allow_failure }),
            r.spec_dry() == self.spec_dry(),
            r.spec_verbose() == self.spec_verbose(),
            r.spec_filename_base() == self.spec_filename_base(),
            r.spec_header() == self.spec_header(),
    {
        Expander { rustfmt: RustFmt::Yes { edition, channel, allow_failure }, ..self }
    }

    /// Leave the input as it is when `dry` holds.
    pub fn dry(self, dry: bool) -> (r: Self)
        ensures
            r.spec_dry() == dry,
            r.spec_verbose() == self.spec_verbose(),
            r.spec_filename_base() == self.spec_filename_base(),
            r.spec_header() == self.spec_header(),
            r.spec_rustfmt() == self.spec_rustfmt(),
    {
        Expander { dry, ..self }
    }

    /// Report the generated file's path on the diagnostic channel.
    pub fn verbose(self, verbose: bool) -> (r: Self)
        ensures
            r.spec_verbose() == verbose,
            r.spec_dry() == self.spec_dry(),
            r.spec_filename_base() == self.spec_filename_base(),
            r.spec_header() == self.spec_header(),
            r.spec_rustfmt() == self.spec_rustfmt(),
    {
        Expander { verbose, ..self }
    }

    pub fn is_dry(&self) -> (r: bool)
        ensures
            r == self.spec_dry(),
    {
        self.dry
    }

    pub fn is_verbose(&self) -> (r: bool)
        ensures
            r == self.spec_verbose(),
    {
        self.verbose
    }

    /// The formatting policy.
    pub fn rustfmt(&self) -> (r: RustFmt)
        ensures
            r == self.spec_rustfmt(),
    {
        self.rustfmt
    }

    /// The header written before the content, if any.
    pub fn header(&self) -> (r: &Option<String>)
        ensures
            match r {
                Some(c) => Some(c@),
                None => None,
            } == self.spec_header(),
    {
        &self.comment
    }

    /// The base of the generated file's name.
    pub fn filename_base(&self) -> (r: &str)
        ensures
            r@ == self.spec_filename_base(),
    {
        self.filename_base.as_str()
    }
}

/// Relies on `String::push`, documented to append the character at the end.
pub assume_specification[ String::push ](s: &mut String, ch: char)
    ensures
        final(s)@ == old(s)@.push(ch),
;

} // verus!
