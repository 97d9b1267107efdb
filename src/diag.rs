//! The diagnostics collector and the report it renders.

use vstd::prelude::*;

verus! {

/// The view of a diagnostic: its message, the path it concerns and a hint.
pub type DiagView = (Seq<char>, Option<Seq<char>>, Option<Seq<char>>);

/// The view of an optional string.
pub open spec fn opt_view(o: Option<String>) -> Option<Seq<char>> {
    match o {
        Some(s) => Some(s@),
        None => None,
    }
}

/// One recorded problem.
#[derive(Debug)]
pub struct Diag {
    pub text: String,
    pub path: Option<String>,
    pub help: Option<String>,
}

impl View for Diag {
    type V = DiagView;

    open spec fn view(&self) -> DiagView {
        (self.text@, opt_view(self.path), opt_view(self.help))
    }
}

/// Whether a check passed; a failure's detail is already recorded.
#[derive(PartialEq, Eq, Structural, Clone, Copy, Debug)]
pub enum Outcome {
    Success,
    Failure,
}

impl Outcome {
    /// Success only where both are successes.
    pub fn and(self, other: Outcome) -> (r: Outcome)
        ensures
            r == (if self == Outcome::Success { other } else { Outcome::Failure }),
    {
        match self {
            Outcome::Success => other,
            Outcome::Failure => Outcome::Failure,
        }
    }

    /// The process exit status for this overall outcome.
    pub open spec fn code_of(self) -> u8 {
        match self {
            Outcome::Success => 0,
            Outcome::Failure => 1,
        }
    }

    /// The process exit status: 0 on success, 1 on failure.
    pub fn exit_code(self) -> (r: u8)
        ensures
            r == self.code_of(),
    {
        match self {
            Outcome::Success => 0,
            Outcome::Failure => 1,
        }
    }
}

/// The problems recorded so far, in the order they were found.
#[derive(Debug)]
pub struct Diags {
    pub problems: Vec<Diag>,
}

impl View for Diags {
    type V = Seq<DiagView>;

    open spec fn view(&self) -> Seq<DiagView> {
        self.problems@.map_values(|d: Diag| d@)
    }
}

/// The label in front of a line of a diagnostic.
#[derive(PartialEq, Eq, Structural, Clone, Copy, Debug)]
pub enum Label {
    Error,
    Path,
    Help,
}

impl Label {
    /// The word printed for the label.
    pub fn name(self) -> (r: &'static str)
        ensures
            r@ == label_name(self),
    {
        match self {
            Label::Error => "error",
            Label::Path => "path",
            Label::Help => "help",
        }
    }
}

/// The word printed for a label.
pub open spec fn label_name(l: Label) -> Seq<char> {
    match l {
        Label::Error => "error"@,
        Label::Path => "path"@,
        Label::Help => "help"@,
    }
}

/// One line of the report: a heading, or a labelled part of a diagnostic.
pub struct ReportLine {
    pub label: Option<Label>,
    pub text: String,
}

impl View for ReportLine {
    type V = (Option<Label>, Seq<char>);

    open spec fn view(&self) -> (Option<Label>, Seq<char>) {
        (self.label, self.text@)
    }
}

/// The lines of one diagnostic: its message, then its path and hint if present.
pub open spec fn block_of(d: DiagView) -> Seq<(Option<Label>, Seq<char>)> {
    seq![(Some(Label::Error), d.0)] + match d.1 {
        Some(p) => seq![(Some(Label::Path), p)],
        None => seq![],
    } + match d.2 {
        Some(h) => seq![(Some(Label::Help), h)],
        None => seq![],
    }
}

/// The blocks of all diagnostics, in order.
pub open spec fn blocks_of(ds: Seq<DiagView>) -> Seq<(Option<Label>, Seq<char>)>
    decreases ds.len(),
{
    if ds.len() == 0 {
        seq![]
    } else {
        blocks_of(ds.drop_last()) + block_of(ds.last())
    }
}

/// The whole report: one success line when nothing was found, else a heading
/// followed by every diagnostic's block.
pub open spec fn report_of(ds: Seq<DiagView>) -> Seq<(Option<Label>, Seq<char>)> {
    if ds.len() == 0 {
        seq![(None, "no problems found"@)]
    } else {
        seq![(None, "some problems were found:"@)] + blocks_of(ds)
    }
}

impl Diags {
    /// An empty collector.
    pub fn new() -> (r: Diags)
        ensures
            r@ == Seq::<DiagView>::empty(),
    {
        let r = Diags { problems: Vec::new() };
        assert(r@ =~= Seq::<DiagView>::empty());
        r
    }

    /// Whether nothing has been recorded.
    pub fn is_empty(&self) -> (r: bool)
        ensures
            r == (self@.len() == 0),
    {
        self.problems.len() == 0
    }

    /// Records a problem and hands back the failure that the check reports.
    pub fn add(&mut self, text: String, path: Option<String>, help: Option<String>) -> (r: Outcome)
        ensures
            final(self)@ == old(self)@.push((text@, opt_view(path), opt_view(help))),
            r == Outcome::Failure,
    {
        let ghost before = self@;
        self.problems.push(Diag { text, path, help });
        assert(self@ =~= before.push((text@, opt_view(path), opt_view(help))));
        Outcome::Failure
    }

    /// Renders the report, consuming the collector.
    pub fn render(self) -> (r: Vec<ReportLine>)
        ensures
            r@.map_values(|l: ReportLine| l@) == report_of(self@),
    {
        let mut out: Vec<ReportLine> = Vec::new();
        if self.problems.len() == 0 {
            out.push(ReportLine { label: None, text: String::from_str("no problems found") });
            assert(out@.map_values(|l: ReportLine| l@) =~= report_of(self@));
            return out;
        }
        out.push(ReportLine { label: None, text: String::from_str("some problems were found:") });
        let ghost head = seq![(None::<Label>, "some problems were found:"@)];
        let mut i: usize = 0;
        while i < self.problems.len()
            invariant
                i <= self@.len(),
                self@.len() == self.problems@.len(),
                out@.map_values(|l: ReportLine| l@) == head + blocks_of(self@.subrange(0, i as int)),
            decreases self@.len() - i,
        {
            let d = &self.problems[i];
            let ghost before = out@.map_values(|l: ReportLine| l@);
            assert(self@.subrange(0, (i + 1) as int).drop_last() =~= self@.subrange(0, i as int));
            assert(self@[i as int] == d@);
            out.push(ReportLine { label: Some(Label::Error), text: d.text.clone() });
            let ghost mid = out@.map_values(|l: ReportLine| l@);
            assert(mid =~= before + seq![(Some(Label::Error), d.text@)]);
            match &d.path {
                Some(p) => {
                    out.push(ReportLine { label: Some(Label::Path), text: p.clone() });
                },
                None => {},
            }
            let ghost mid2 = out@.map_values(|l: ReportLine| l@);
            assert(mid2 =~= mid + match d@.1 {
                Some(p) => seq![(Some(Label::Path), p)],
                None => seq![],
            });
            match &d.help {
                Some(h) => {
                    out.push(ReportLine { label: Some(Label::Help), text: h.clone() });
                },
                None => {},
            }
            assert(out@.map_values(|l: ReportLine| l@) =~= mid2 + match d@.2 {
                Some(h) => seq![(Some(Label::Help), h)],
                None => seq![],
            });
            assert(block_of(d@) =~= seq![(Some(Label::Error), d.text@)] + match d@.1 {
                Some(p) => seq![(Some(Label::Path), p)],
                None => seq![],
            } + match d@.2 {
                Some(h) => seq![(Some(Label::Help), h)],
                None => seq![],
            });
            assert(out@.map_values(|l: ReportLine| l@) =~= head + blocks_of(self@.subrange(0, (i + 1) as int)));
            i = i + 1;
        }
        assert(self@.subrange(0, self@.len() as int) =~= self@);
        out
    }
}

} // verus!
