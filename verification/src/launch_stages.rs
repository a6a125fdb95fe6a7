//! The stages of the protection process, with their numbers and names.
use vstd::prelude::*;

use crate::text::same_text;

verus! {

/// The stages that the protection process goes through.
/// Each stage has a number (its position here, starting at 0) and a name
/// (the variant's name), and either identifies it.
#[derive(Clone, Copy, Debug, PartialEq, Eq, Structural)]
pub enum LaunchStages {
    Stopped,
    Stopping,
    Started,
    Starting,
}

/// The error of parsing a stage from text that names none.
#[derive(Clone, Copy, Debug, PartialEq, Eq, Structural)]
pub enum ParseError {
    VariantNotFound,
}

/// The number of a stage.
pub open spec fn stage_code(stage: LaunchStages) -> u8 {
    match stage {
        LaunchStages::Stopped => 0,
        LaunchStages::Stopping => 1,
        LaunchStages::Started => 2,
        LaunchStages::Starting => 3,
    }
}

/// The stage with number `code`, if any.
pub open spec fn stage_from_code(code: u8) -> Option<LaunchStages> {
    if code == 0 {
        Some(LaunchStages::Stopped)
    } else if code == 1 {
        Some(LaunchStages::Stopping)
    } else if code == 2 {
        Some(LaunchStages::Started)
    } else if code == 3 {
        Some(LaunchStages::Starting)
    } else {
        None
    }
}

/// The name of a stage.
pub open spec fn stage_name(stage: LaunchStages) -> Seq<char> {
    match stage {
        LaunchStages::Stopped => "Stopped"@,
        LaunchStages::Stopping => "Stopping"@,
        LaunchStages::Started => "Started"@,
        LaunchStages::Starting => "Starting"@,
    }
}

/// The stage named exactly `text`, if any.
pub open spec fn parse_stage(text: Seq<char>) -> Option<LaunchStages> {
    if text == stage_name(LaunchStages::Stopped) {
        Some(LaunchStages::Stopped)
    } else if text == stage_name(LaunchStages::Stopping) {
        Some(LaunchStages::Stopping)
    } else if text == stage_name(LaunchStages::Started) {
        Some(LaunchStages::Started)
    } else if text == stage_name(LaunchStages::Starting) {
        Some(LaunchStages::Starting)
    } else {
        None
    }
}

/// The four names, spelled out.
pub proof fn lemma_stage_names()
    ensures
        stage_name(LaunchStages::Stopped) == seq!['S', 't', 'o', 'p', 'p', 'e', 'd'],
        stage_name(LaunchStages::Stopping) == seq!['S', 't', 'o', 'p', 'p', 'i', 'n', 'g'],
        stage_name(LaunchStages::Started) == seq!['S', 't', 'a', 'r', 't', 'e', 'd'],
        stage_name(LaunchStages::Starting) == seq!['S', 't', 'a', 'r', 't', 'i', 'n', 'g'],
{
    reveal_strlit("Stopped");
    reveal_strlit("Stopping");
    reveal_strlit("Started");
    reveal_strlit("Starting");
    assert(stage_name(LaunchStages::Stopped) =~= seq!['S', 't', 'o', 'p', 'p', 'e', 'd']);
    assert(stage_name(LaunchStages::Stopping) =~= seq!['S', 't', 'o', 'p', 'p', 'i', 'n', 'g']);
    assert(stage_name(LaunchStages::Started) =~= seq!['S', 't', 'a', 'r', 't', 'e', 'd']);
    assert(stage_name(LaunchStages::Starting) =~= seq!['S', 't', 'a', 'r', 't', 'i', 'n', 'g']);
}

/// No name holds a double quote.
pub proof fn lemma_stage_name_unquoted(stage: LaunchStages)
    ensures
        !stage_name(stage).contains('"'),
{
    lemma_stage_names();
    let n = stage_name(stage);
    assert forall|k: int| 0 <= k < n.len() implies n[k] != '"' by {
        assert(n[k] != '"');
    }
}

/// Law: the number of a stage gives the stage back, and every number below 4
/// is the number of the stage it gives.
pub proof fn lemma_code_round_trip(stage: LaunchStages, code: u8)
    ensures
        stage_from_code(stage_code(stage)) == Some(stage),
        code < 4 ==> stage_code(stage_from_code(code).unwrap()) == code,
{
}

/// Law: the name of a stage parses back to that stage, so distinct stages have
/// distinct names.
pub proof fn lemma_name_round_trip(stage: LaunchStages)
    ensures
        parse_stage(stage_name(stage)) == Some(stage),
{
    lemma_stage_names();
    let a = stage_name(LaunchStages::Stopped);
    let b = stage_name(LaunchStages::Stopping);
    let c = stage_name(LaunchStages::Started);
    let d = stage_name(LaunchStages::Starting);
    assert(a != b) by {
        assert(a.len() != b.len());
    }
    assert(a != c) by {
        assert(a[2] != c[2]);
    }
    assert(a != d) by {
        assert(a.len() != d.len());
    }
    assert(b != c) by {
        assert(b.len() != c.len());
    }
    assert(b != d) by {
        assert(b[2] != d[2]);
    }
    assert(c != d) by {
        assert(c.len() != d.len());
    }
}

impl LaunchStages {
    /// The stage with number `code`, or `None` where `code` numbers no stage.
    pub fn from_repr(code: u8) -> (r: Option<LaunchStages>)
        ensures
            r == stage_from_code(code),
            r is None <==> code > 3,
    {
        match code {
            0 => Some(LaunchStages::Stopped),
            1 => Some(LaunchStages::Stopping),
            2 => Some(LaunchStages::Started),
            3 => Some(LaunchStages::Starting),
            _ => None,
        }
    }

    /// The number of this stage.
    pub fn as_repr(&self) -> (code: u8)
        ensures
            code == stage_code(*self),
    {
        match self {
            LaunchStages::Stopped => 0,
            LaunchStages::Stopping => 1,
            LaunchStages::Started => 2,
            LaunchStages::Starting => 3,
        }
    }

    /// The name of this stage.
    pub fn to_string(&self) -> (r: String)
        ensures
            r@ == stage_name(*self),
    {
        match self {
            LaunchStages::Stopped => "Stopped".to_owned(),
            LaunchStages::Stopping => "Stopping".to_owned(),
            LaunchStages::Started => "Started".to_owned(),
            LaunchStages::Starting => "Starting".to_owned(),
        }
    }

    /// The stage named exactly `text`; any other text is refused.
    pub fn from_str(text: &str) -> (r: Result<LaunchStages, ParseError>)
        ensures
            match r {
                Ok(stage) => parse_stage(text@) == Some(stage),
                Err(e) => parse_stage(text@) is None && e == ParseError::VariantNotFound,
            },
    {
        if same_text(text, "Stopped") {
            Ok(LaunchStages::Stopped)
        } else if same_text(text, "Stopping") {
            Ok(LaunchStages::Stopping)
        } else if same_text(text, "Started") {
            Ok(LaunchStages::Started)
        } else if same_text(text, "Starting") {
            Ok(LaunchStages::Starting)
        } else {
            Err(ParseError::VariantNotFound)
        }
    }
}

} // verus!
