//! What the panel of the selected test shows, decided from plain values.

use crate::text::opt_text;
use vstd::prelude::*;
use vstd::string::*;

verus! {

/// Outcome of a test.
#[derive(Clone, Copy, Debug, PartialEq, Eq, Structural)]
pub enum TestStatus {
    Passed,
    Failed,
    Ignored,
}

/// Kind of a test.
#[derive(Clone, Copy, Debug, PartialEq, Eq, Structural)]
pub enum TestKind {
    Normal,
    Doc,
}

/// Width of one letter of the banner, in pixels.
pub const LETTER_WIDTH: u32 = 30;

impl TestStatus {
    /// The word in the banner above a test's details.
    pub open spec fn banner_text(self) -> Seq<char> {
        match self {
            TestStatus::Passed => "PASSED"@,
            TestStatus::Ignored => "IGNORED"@,
            TestStatus::Failed => "FAILED"@,
        }
    }

    /// The word in the banner above a test's details.
    pub fn banner(&self) -> (word: &'static str)
        ensures
            word@ == self.banner_text(),
    {
        match self {
            TestStatus::Passed => "PASSED",
            TestStatus::Ignored => "IGNORED",
            TestStatus::Failed => "FAILED",
        }
    }

    /// The banner's width in pixels: one letter's width for each letter of its
    /// word.
    pub fn banner_width(&self) -> (width: u32)
        ensures
            width == LETTER_WIDTH * self.banner_text().len(),
    {
        proof {
            reveal_strlit("PASSED");
            reveal_strlit("IGNORED");
            reveal_strlit("FAILED");
        }
        match self {
            TestStatus::Passed => LETTER_WIDTH * 6,
            TestStatus::Ignored => LETTER_WIDTH * 7,
            TestStatus::Failed => LETTER_WIDTH * 6,
        }
    }
}

impl TestKind {
    /// The kind's name in the table of details.
    pub fn label(&self) -> (name: &'static str)
        ensures
            name@ == (match self {
                TestKind::Normal => "Normal"@,
                TestKind::Doc => "Doc Test"@,
            }),
    {
        match self {
            TestKind::Normal => "Normal",
            TestKind::Doc => "Doc Test",
        }
    }
}

/// The text in the row of the file path: the path, or a word for its absence.
pub fn file_path_text(file_path: Option<String>) -> (text: String)
    ensures
        text@ == (match file_path {
            Some(path) => path@,
            None => "Unknown"@,
        }),
{
    match file_path {
        Some(path) => path,
        None => String::from_str("Unknown"),
    }
}

/// The text of the block that explains a failure: shown for a failed test only,
/// with the reason, or with a word for its absence.
pub fn failure_text(status: TestStatus, error_reason: Option<String>) -> (text: Option<String>)
    ensures
        opt_text(text) == (if status == TestStatus::Failed {
            Some(
                match error_reason {
                    Some(reason) => reason@,
                    None => "Unknown error reason"@,
                },
            )
        } else {
            None
        }),
{
    match status {
        TestStatus::Failed => match error_reason {
            Some(reason) => Some(reason),
            None => Some(String::from_str("Unknown error reason")),
        },
        _ => None,
    }
}

/// The text of the block that explains why a test was ignored: shown for an
/// ignored test that gives a reason.
pub fn ignore_text(status: TestStatus, ignore_reason: Option<String>) -> (text: Option<String>)
    ensures
        opt_text(text) == (if status == TestStatus::Ignored {
            opt_text(ignore_reason)
        } else {
            None
        }),
{
    match status {
        TestStatus::Ignored => ignore_reason,
        _ => None,
    }
}

} // verus!
