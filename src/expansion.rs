//! The materialization protocol as a state machine.
//!
//! An [`Expansion`] decides; its caller performs each [`Action`] (pretty-prints
//! the text, runs `rustfmt`, opens and locks the file, writes it, waits for
//! the lock) and reports the result as an [`Event`]. Formatting falls back
//! from the structured pretty-printer to `rustfmt` to the raw text. A file is
//! written only by the holder of its lock; a caller that finds the lock taken
//! waits for it and then refers to the file without writing, which is sound
//! because the path is derived from the content.
use vstd::prelude::*;
use crate::config::{rustfmt_args_spec, Expander, RustFmt};
use crate::format::{finish_rustfmt, finish_rustfmt_spec, FormatError, RustfmtOutcome};
use crate::naming::{blake2s256_of, destination_path, destination_path_spec, lemma_distinct_paths};
use crate::reference::{file_bytes, file_bytes_spec, include_reference, is_include_of};

verus! {

/// Where an expansion stands.
#[derive(Debug, Clone, Copy, PartialEq, Eq, Structural)]
pub enum Phase {
    /// Waiting for the structured pretty-printer.
    Printing,
    /// Waiting for the outcome of `rustfmt`.
    Formatting,
    /// Waiting to learn whether the file's lock was taken without blocking.
    Probing,
    /// Holding the lock, waiting for the write to complete.
    Writing,
    /// Lock contended, waiting for the other writer to release it.
    Waiting,
    /// Done; no further event is accepted.
    Finished,
}

/// What the caller is asked to do next.
#[derive(Debug)]
pub enum Action {
    /// Parse `text` as a Rust source file and pretty-print it; report `None`
    /// where it does not parse or cannot be printed.
    PrettyPrint { text: String },
    /// Run `rustfmt` with these arguments, feeding `input` on its standard input.
    RunRustfmt { args: Vec<String>, input: Vec<u8> },
    /// Open the file at `path`, creating it if absent and not truncating it,
    /// then try to take its exclusive lock without blocking.
    Open { path: String },
    /// The lock is held: truncate the file, write `bytes`, release the lock.
    Write { bytes: Vec<u8> },
    /// The lock is held elsewhere: block until it is released.
    Wait,
    /// Done: hand `output` back to the caller.
    Finish { output: String },
    /// Formatting failed and failure is not tolerated; nothing is written.
    Fail { error: FormatError },
}

/// What came of the last action.
#[derive(Debug)]
pub enum Event {
    /// The pretty-printer's text, or `None` where it gave none.
    Printed { output: Option<String> },
    /// `rustfmt` ran, or could not be started.
    Formatted { outcome: RustfmtOutcome },
    /// The exclusive lock was taken without blocking.
    Locked,
    /// The exclusive lock is held by another writer.
    Contended,
    /// The file was written and its lock released.
    Written,
    /// The other writer released the lock.
    Released,
}

/// The mathematical value of an [`Action`]; `Refer` stands for a `Finish`
/// whose output is an `include!` of `path`.
pub enum ActionView {
    PrettyPrint { text: Seq<char> },
    RunRustfmt { args: Seq<Seq<char>>, input: Seq<u8> },
    Open { path: Seq<char> },
    Write { bytes: Seq<u8> },
    Wait,
    Finish { output: Seq<char> },
    Refer { path: Seq<char> },
    Fail { error: FormatError },
}

impl View for Action {
    type V = ActionView;

    open spec fn view(&self) -> ActionView {
        match self {
            Action::PrettyPrint { text } => ActionView::PrettyPrint { text: text@ },
            Action::RunRustfmt { args, input } => ActionView::RunRustfmt {
                args: args@.map_values(|a: String| a@),
                input: input@,
            },
            Action::Open { path } => ActionView::Open { path: path@ },
            Action::Write { bytes } => ActionView::Write { bytes: bytes@ },
            Action::Wait => ActionView::Wait,
            Action::Finish { output } => ActionView::Finish { output: output@ },
            Action::Fail { error } => ActionView::Fail { error: *error },
        }
    }
}

/// The action `a` carries out `av`: for `Refer`, a `Finish` whose output is
/// an `include!` of the path; otherwise an action of that very value.
pub open spec fn realizes(a: Action, av: ActionView) -> bool {
    match av {
        ActionView::Refer { path } => a matches Action::Finish { output } && is_include_of(output@, path),
        _ => a@ == av,
    }
}

/// The mathematical value of an [`Expansion`].
pub struct ExpansionView {
    pub phase: Phase,
    /// The generated text as UTF-8 bytes.
    pub raw: Seq<u8>,
    pub rustfmt: RustFmt,
    /// The output directory joined with the base name.
    pub prefix: Seq<char>,
    pub header: Option<Seq<char>>,
    /// The text to write, once formatting is over.
    pub content: Seq<u8>,
    /// The destination, once formatting is over.
    pub path: Seq<char>,
}

impl ExpansionView {
    /// The event that the pending action can produce.
    pub open spec fn accepts(&self, e: Event) -> bool {
        match (self.phase, e) {
            (Phase::Printing, Event::Printed { .. }) => true,
            (Phase::Formatting, Event::Formatted { .. }) => true,
            (Phase::Probing, Event::Locked) => true,
            (Phase::Probing, Event::Contended) => true,
            (Phase::Writing, Event::Written) => true,
            (Phase::Waiting, Event::Released) => true,
            _ => false,
        }
    }

    pub open spec fn allow_failure(&self) -> bool {
        match self.rustfmt {
            RustFmt::Yes { allow_failure, .. } => allow_failure,
            RustFmt::No => false,
        }
    }

    /// The path is the content's address.
    pub open spec fn addressed(&self) -> bool {
        self.path == destination_path_spec(self.prefix, self.content)
    }

    /// Formatting runs only where it is enabled; once the content is known,
    /// the path is its address and its digest is 32 bytes long.
    pub open spec fn wf(&self) -> bool {
        &&& (self.phase == Phase::Printing || self.phase == Phase::Formatting) ==> self.rustfmt is Yes
        &&& (self.phase == Phase::Probing || self.phase == Phase::Writing || self.phase == Phase::Waiting) ==> {
            &&& self.addressed()
            &&& blake2s256_of(self.content).len() == 32
        }
    }
}

/// Formatting is over with `content`: open its content-addressed file.
pub open spec fn ready_spec(v: ExpansionView, content: Seq<u8>) -> (ExpansionView, ActionView) {
    let path = destination_path_spec(v.prefix, content);
    (ExpansionView { phase: Phase::Probing, content, path, ..v }, ActionView::Open { path })
}

/// Where an expansion of `text` starts.
pub open spec fn start_spec(cfg: Expander, text: Seq<char>, prefix: Seq<char>) -> (ExpansionView, ActionView) {
    let raw = vstd::utf8::encode_utf8(text);
    let v = ExpansionView {
        phase: Phase::Printing,
        raw,
        rustfmt: cfg.spec_rustfmt(),
        prefix,
        header: cfg.spec_header(),
        content: Seq::empty(),
        path: Seq::empty(),
    };
    if cfg.spec_dry() {
        (ExpansionView { phase: Phase::Finished, ..v }, ActionView::Finish { output: text })
    } else {
        match cfg.spec_rustfmt() {
            RustFmt::No => ready_spec(v, raw),
            RustFmt::Yes { .. } => (v, ActionView::PrettyPrint { text }),
        }
    }
}

/// The next state and action after event `e`.
pub open spec fn step_spec(v: ExpansionView, e: Event) -> (ExpansionView, ActionView) {
    match e {
        Event::Printed { output } => match output {
            Some(p) => ready_spec(v, vstd::utf8::encode_utf8(p@)),
            None => match v.rustfmt {
                RustFmt::Yes { edition, channel, .. } => (
                    ExpansionView { phase: Phase::Formatting, ..v },
                    ActionView::RunRustfmt { args: rustfmt_args_spec(channel, edition), input: v.raw },
                ),
                RustFmt::No => ready_spec(v, v.raw),
            },
        },
        Event::Formatted { outcome } => match finish_rustfmt_spec(v.raw, v.allow_failure(), outcome) {
            Ok(content) => ready_spec(v, content),
            Err(error) => (ExpansionView { phase: Phase::Finished, ..v }, ActionView::Fail { error }),
        },
        Event::Locked => (
            ExpansionView { phase: Phase::Writing, ..v },
            ActionView::Write { bytes: file_bytes_spec(v.header, v.content) },
        ),
        Event::Contended => (ExpansionView { phase: Phase::Waiting, ..v }, ActionView::Wait),
        Event::Written | Event::Released => (
            ExpansionView { phase: Phase::Finished, ..v },
            ActionView::Refer { path: v.path },
        ),
    }
}

/// One materialization in progress.
#[derive(Debug)]
pub struct Expansion {
    phase: Phase,
    raw: Vec<u8>,
    rustfmt: RustFmt,
    prefix: String,
    header: Option<String>,
    content: Vec<u8>,
    path: String,
}

impl View for Expansion {
    type V = ExpansionView;

    closed spec fn view(&self) -> ExpansionView {
        ExpansionView {
            phase: self.phase,
            raw: self.raw@,
            rustfmt: self.rustfmt,
            prefix: self.prefix@,
            header: match self.header {
                Some(h) => Some(h@),
                None => None,
            },
            content: self.content@,
            path: self.path@,
        }
    }
}

impl Expansion {
    fn ready(self, content: Vec<u8>) -> (r: (Expansion, Action))
        ensures
            (r.0@, r.1@) == ready_spec(self@, content@),
            r.0@.wf(),
    {
        let path = destination_path(self.prefix.as_str(), content.as_slice());
        let open = Action::Open { path: path.clone() };
        (Expansion { phase: Phase::Probing, content, path, ..self }, open)
    }

    /// Begins materializing `text` for `cfg`; `prefix` is the output directory
    /// joined with the base name. With `dry` set, the text itself is the
    /// output and nothing is touched; with formatting off, the text is
    /// written as it is; otherwise the pretty-printer is asked for first.
    pub fn start(cfg: &Expander, text: &str, prefix: &str) -> (r: (Expansion, Action))
        ensures
            (r.0@, r.1@) == start_spec(*cfg, text@, prefix@),
            r.0@.wf(),
    {
        let raw = vstd::slice::slice_to_vec(text.as_bytes());
        let rustfmt = cfg.rustfmt();
        let header = match cfg.header() {
            Some(h) => Some(h.clone()),
            None => None,
        };
        let e = Expansion {
            phase: Phase::Printing,
            raw,
            rustfmt,
            prefix: prefix.to_owned(),
            header,
            content: Vec::new(),
            path: String::new(),
        };
        if cfg.is_dry() {
            let output = text.to_owned();
            (Expansion { phase: Phase::Finished, ..e }, Action::Finish { output })
        } else {
            match rustfmt {
                RustFmt::No => {
                    let content = e.raw.clone();
                    e.ready(content)
                },
                RustFmt::Yes { .. } => (e, Action::PrettyPrint { text: text.to_owned() }),
            }
        }
    }

    /// Whether `e` is an event that the pending action can produce.
    pub fn accepts(&self, e: &Event) -> (r: bool)
        ensures
            r == self@.accepts(*e),
    {
        match (self.phase, e) {
            (Phase::Printing, Event::Printed { .. }) => true,
            (Phase::Formatting, Event::Formatted { .. }) => true,
            (Phase::Probing, Event::Locked) => true,
            (Phase::Probing, Event::Contended) => true,
            (Phase::Writing, Event::Written) => true,
            (Phase::Waiting, Event::Released) => true,
            _ => false,
        }
    }

    /// Takes the outcome of the pending action and gives the next one.
    pub fn step(self, e: Event) -> (r: (Expansion, Action))
        requires
            self@.accepts(e),
            self@.wf(),
        ensures
            r.0@ == step_spec(self@, e).0,
            realizes(r.1, step_spec(self@, e).1),
            r.0@.wf(),
    {
        match e {
            Event::Printed { output } => match output {
                Some(p) => {
                    let content = vstd::slice::slice_to_vec(p.as_str().as_bytes());
                    self.ready(content)
                },
                None => match self.rustfmt {
                    RustFmt::Yes { edition, channel, .. } => {
                        let args = crate::config::rustfmt_args(channel, edition);
                        let input = self.raw.clone();
                        (Expansion { phase: Phase::Formatting, ..self }, Action::RunRustfmt { args, input })
                    },
                    RustFmt::No => {
                        let content = self.raw.clone();
                        self.ready(content)
                    },
                },
            },
            Event::Formatted { outcome } => {
                let allow_failure = match self.rustfmt {
                    RustFmt::Yes { allow_failure, .. } => allow_failure,
                    RustFmt::No => false,
                };
                match finish_rustfmt(self.raw.as_slice(), allow_failure, outcome) {
                    Ok(content) => self.ready(content),
                    Err(error) => (Expansion { phase: Phase::Finished, ..self }, Action::Fail { error }),
                }
            },
            Event::Locked => {
                let bytes = file_bytes(&self.header, self.content.as_slice());
                (Expansion { phase: Phase::Writing, ..self }, Action::Write { bytes })
            },
            Event::Contended => (Expansion { phase: Phase::Waiting, ..self }, Action::Wait),
            Event::Written | Event::Released => {
                let output = include_reference(self.path.as_str());
                (Expansion { phase: Phase::Finished, ..self }, Action::Finish { output })
            },
        }
    }
}

/// The state in which a run first asks to open the file: right after it
/// starts, or after the pretty-printer gave `printed` and, where that was
/// `None`, `rustfmt` reported `outcome`.
pub open spec fn probe_state(cfg: Expander, text: Seq<char>, prefix: Seq<char>, printed: Option<String>, outcome: RustfmtOutcome) -> ExpansionView {
    let first = start_spec(cfg, text, prefix);
    match first.1 {
        ActionView::PrettyPrint { .. } => {
            let second = step_spec(first.0, Event::Printed { output: printed });
            match second.1 {
                ActionView::RunRustfmt { .. } => step_spec(second.0, Event::Formatted { outcome }).0,
                _ => second.0,
            }
        },
        _ => first.0,
    }
}

/// Dry-run purity: with `dry` set, the text comes back unchanged at once and
/// the expansion accepts no event, so no file is opened or written.
pub proof fn lemma_dry_run_pure(cfg: Expander, text: Seq<char>, prefix: Seq<char>, e: Event)
    requires
        cfg.spec_dry(),
    ensures
        start_spec(cfg, text, prefix).1 == (ActionView::Finish { output: text }),
        !start_spec(cfg, text, prefix).0.accepts(e),
{
}

/// Concurrency safety: runs that reach the lock with the same prefix, header
/// and content ask for the same path. The one that takes the lock writes the
/// header and the content once; one that finds the lock taken writes nothing,
/// waits, and hands back an `include!` of the same path as the writer.
pub proof fn lemma_single_writer(v1: ExpansionView, v2: ExpansionView)
    requires
        v1.phase == Phase::Probing,
        v2.phase == Phase::Probing,
        v1.addressed(),
        v2.addressed(),
        v1.prefix == v2.prefix,
        v1.header == v2.header,
        v1.content == v2.content,
    ensures
        v1.path == v2.path,
        step_spec(v1, Event::Locked).1 == (ActionView::Write { bytes: file_bytes_spec(v1.header, v1.content) }),
        step_spec(v2, Event::Contended).1 == ActionView::Wait,
        step_spec(step_spec(v2, Event::Contended).0, Event::Released).1
            == step_spec(step_spec(v1, Event::Locked).0, Event::Written).1,
        step_spec(step_spec(v1, Event::Locked).0, Event::Written).1
            == (ActionView::Refer { path: destination_path_spec(v1.prefix, v1.content) }),
{
}

/// Idempotence: a run repeated with the same arguments (and the same results
/// of the pretty-printer and of `rustfmt`, where they run) asks for the same
/// path as the first run. Taking the lock, it writes what the first run
/// wrote; finding it taken, it writes nothing; either way it refers to the
/// same path.
pub proof fn lemma_idempotent(cfg: Expander, text: Seq<char>, prefix: Seq<char>, printed: Option<String>, outcome: RustfmtOutcome)
    requires
        probe_state(cfg, text, prefix, printed, outcome).phase == Phase::Probing,
    ensures
        probe_state(cfg, text, prefix, printed, outcome).addressed(),
        step_spec(probe_state(cfg, text, prefix, printed, outcome), Event::Locked).1 == (ActionView::Write {
            bytes: file_bytes_spec(cfg.spec_header(), probe_state(cfg, text, prefix, printed, outcome).content),
        }),
        step_spec(step_spec(probe_state(cfg, text, prefix, printed, outcome), Event::Contended).0, Event::Released).1
            == step_spec(step_spec(probe_state(cfg, text, prefix, printed, outcome), Event::Locked).0, Event::Written).1,
{
    let v = probe_state(cfg, text, prefix, printed, outcome);
    lemma_single_writer(v, v);
}

/// Fallback policy: where formatting is enabled, the pretty-printer gives
/// nothing (the text does not parse) and `rustfmt` fails or cannot be
/// started, a run that tolerates the failure goes on with the original text
/// and writes it after the header; one that does not fails and accepts no
/// further event, so it writes nothing.
pub proof fn lemma_fallback_policy(cfg: Expander, text: Seq<char>, prefix: Seq<char>, outcome: RustfmtOutcome, e: Event)
    requires
        !cfg.spec_dry(),
        cfg.spec_rustfmt() is Yes,
        !(outcome is Formatted),
    ensures
        start_spec(cfg, text, prefix).1 == (ActionView::PrettyPrint { text }),
        step_spec(start_spec(cfg, text, prefix).0, Event::Printed { output: None }).1 is RunRustfmt,
        cfg.spec_rustfmt()->allow_failure ==> {
            let v = step_spec(start_spec(cfg, text, prefix).0, Event::Printed { output: None }).0;
            let w = step_spec(v, Event::Formatted { outcome });
            &&& w.0.content == vstd::utf8::encode_utf8(text)
            &&& w.1 == (ActionView::Open { path: destination_path_spec(prefix, vstd::utf8::encode_utf8(text)) })
            &&& step_spec(w.0, Event::Locked).1
                == (ActionView::Write { bytes: file_bytes_spec(cfg.spec_header(), vstd::utf8::encode_utf8(text)) })
        },
        !cfg.spec_rustfmt()->allow_failure ==> {
            let v = step_spec(start_spec(cfg, text, prefix).0, Event::Printed { output: None }).0;
            &&& step_spec(v, Event::Formatted { outcome }).1 is Fail
            &&& !step_spec(v, Event::Formatted { outcome }).0.accepts(e)
        },
{
}

/// Collision avoidance for runs: two runs under one prefix whose contents'
/// digests differ in their leading six bytes ask for different paths, so
/// neither overwrites the other's file.
pub proof fn lemma_runs_apart(v1: ExpansionView, v2: ExpansionView)
    requires
        v1.phase == Phase::Probing,
        v2.phase == Phase::Probing,
        v1.wf(),
        v2.wf(),
        v1.prefix == v2.prefix,
        blake2s256_of(v1.content).take(6) != blake2s256_of(v2.content).take(6),
    ensures
        v1.path != v2.path,
{
    lemma_distinct_paths(v1.prefix, v1.content, v2.content);
}

} // verus!
