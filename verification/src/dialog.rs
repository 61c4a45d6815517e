//! The dialogue vocabulary of the scan front-end: the choices a consumer
//! can take, each with a stable wire name that round-trips through the
//! callback data of the user interface.

use vstd::prelude::*;

verus! {

/// How many pages the requested document has.
#[derive(Clone, Copy, Debug, PartialEq, Eq, Structural)]
pub enum ScanMode {
    SinglePage,
    Document,
}

/// What to do next while scanning.
#[derive(Clone, Copy, Debug, PartialEq, Eq, Structural)]
pub enum ScanAction {
    Done,
    Scan,
    Preview,
    Cancel,
}

/// How to resolve a cancellation: drop the scanned pages or keep going.
#[derive(Clone, Copy, Debug, PartialEq, Eq, Structural)]
pub enum ScanCancel {
    Forget,
    Cancel,
}

/// The wire name of a scan mode.
pub open spec fn spec_scan_mode_str(m: ScanMode) -> Seq<char> {
    match m {
        ScanMode::SinglePage => "SinglePage"@,
        ScanMode::Document => "Document"@,
    }
}

/// The wire name of a scan action.
pub open spec fn spec_scan_action_str(a: ScanAction) -> Seq<char> {
    match a {
        ScanAction::Done => "Done"@,
        ScanAction::Scan => "Scan"@,
        ScanAction::Preview => "Preview"@,
        ScanAction::Cancel => "Cancel"@,
    }
}

/// The wire name of a cancellation choice.
pub open spec fn spec_scan_cancel_str(c: ScanCancel) -> Seq<char> {
    match c {
        ScanCancel::Forget => "Forget"@,
        ScanCancel::Cancel => "Cancel"@,
    }
}

/// What a wire name parses to as a scan mode.
pub open spec fn spec_parse_scan_mode(s: Seq<char>) -> Option<ScanMode> {
    if s == spec_scan_mode_str(ScanMode::SinglePage) {
        Some(ScanMode::SinglePage)
    } else if s == spec_scan_mode_str(ScanMode::Document) {
        Some(ScanMode::Document)
    } else {
        None
    }
}

/// What a wire name parses to as a scan action.
pub open spec fn spec_parse_scan_action(s: Seq<char>) -> Option<ScanAction> {
    if s == spec_scan_action_str(ScanAction::Done) {
        Some(ScanAction::Done)
    } else if s == spec_scan_action_str(ScanAction::Scan) {
        Some(ScanAction::Scan)
    } else if s == spec_scan_action_str(ScanAction::Preview) {
        Some(ScanAction::Preview)
    } else if s == spec_scan_action_str(ScanAction::Cancel) {
        Some(ScanAction::Cancel)
    } else {
        None
    }
}

/// What a wire name parses to as a cancellation choice.
pub open spec fn spec_parse_scan_cancel(s: Seq<char>) -> Option<ScanCancel> {
    if s == spec_scan_cancel_str(ScanCancel::Forget) {
        Some(ScanCancel::Forget)
    } else if s == spec_scan_cancel_str(ScanCancel::Cancel) {
        Some(ScanCancel::Cancel)
    } else {
        None
    }
}

impl ScanMode {
    /// The wire name of this mode.
    pub fn as_str(self) -> (r: &'static str)
        ensures
            r@ == spec_scan_mode_str(self),
    {
        match self {
            ScanMode::SinglePage => "SinglePage",
            ScanMode::Document => "Document",
        }
    }

    /// Parses a wire name back into a mode.
    pub fn parse(s: &str) -> (r: Option<ScanMode>)
        ensures
            r == spec_parse_scan_mode(s@),
    {
        let t: String = s.to_owned();
        if t == "SinglePage".to_owned() {
            Some(ScanMode::SinglePage)
        } else if t == "Document".to_owned() {
            Some(ScanMode::Document)
        } else {
            None
        }
    }
}

impl ScanAction {
    /// The wire name of this action.
    pub fn as_str(self) -> (r: &'static str)
        ensures
            r@ == spec_scan_action_str(self),
    {
        match self {
            ScanAction::Done => "Done",
            ScanAction::Scan => "Scan",
            ScanAction::Preview => "Preview",
            ScanAction::Cancel => "Cancel",
        }
    }

    /// Parses a wire name back into an action.
    pub fn parse(s: &str) -> (r: Option<ScanAction>)
        ensures
            r == spec_parse_scan_action(s@),
    {
        let t: String = s.to_owned();
        if t == "Done".to_owned() {
            Some(ScanAction::Done)
        } else if t == "Scan".to_owned() {
            Some(ScanAction::Scan)
        } else if t == "Preview".to_owned() {
            Some(ScanAction::Preview)
        } else if t == "Cancel".to_owned() {
            Some(ScanAction::Cancel)
        } else {
            None
        }
    }
}

impl ScanCancel {
    /// The wire name of this choice.
    pub fn as_str(self) -> (r: &'static str)
        ensures
            r@ == spec_scan_cancel_str(self),
    {
        match self {
            ScanCancel::Forget => "Forget",
            ScanCancel::Cancel => "Cancel",
        }
    }

    /// Parses a wire name back into a choice.
    pub fn parse(s: &str) -> (r: Option<ScanCancel>)
        ensures
            r == spec_parse_scan_cancel(s@),
    {
        let t: String = s.to_owned();
        if t == "Forget".to_owned() {
            Some(ScanCancel::Forget)
        } else if t == "Cancel".to_owned() {
            Some(ScanCancel::Cancel)
        } else {
            None
        }
    }
}

/// Law: every scan mode's wire name parses back to that mode.
pub proof fn lemma_scan_mode_round_trip(m: ScanMode)
    ensures
        spec_parse_scan_mode(spec_scan_mode_str(m)) == Some(m),
{
    reveal_strlit("SinglePage");
    reveal_strlit("Document");
    assert("SinglePage"@.len() == 10);
    assert("Document"@.len() == 8);
}

/// Law: every scan action's wire name parses back to that action.
pub proof fn lemma_scan_action_round_trip(a: ScanAction)
    ensures
        spec_parse_scan_action(spec_scan_action_str(a)) == Some(a),
{
    reveal_strlit("Done");
    reveal_strlit("Scan");
    reveal_strlit("Preview");
    reveal_strlit("Cancel");
    assert("Done"@.len() == 4);
    assert("Scan"@.len() == 4);
    assert("Preview"@.len() == 7);
    assert("Cancel"@.len() == 6);
    assert("Done"@ != "Scan"@) by {
        assert("Done"@[0] == 'D');
        assert("Scan"@[0] == 'S');
    }
}

/// Law: every cancellation choice's wire name parses back to that choice.
pub proof fn lemma_scan_cancel_round_trip(c: ScanCancel)
    ensures
        spec_parse_scan_cancel(spec_scan_cancel_str(c)) == Some(c),
{
    reveal_strlit("Forget");
    reveal_strlit("Cancel");
    assert("Forget"@ != "Cancel"@) by {
        assert("Forget"@[0] == 'F');
        assert("Cancel"@[0] == 'C');
    }
}

} // verus!
