//! Names for new branches, built from a kind, an issue and a description.

use crate::text::same_text;
use vstd::prelude::*;
use vstd::string::*;

verus! {

/// The text that `str::to_lowercase` makes of `text`.
pub uninterp spec fn lowercased(text: Seq<char>) -> Seq<char>;

/// `str::to_lowercase`: the lowercase equivalent of `text` as Unicode
/// defines it.
#[verifier::external_body]
fn lowercase(text: &str) -> (lower: String)
    ensures
        lower@ == lowercased(text@),
{
    text.to_lowercase()
}

/// The kind of work that a branch is for.
#[derive(Debug, Clone, PartialEq)]
pub enum BranchType {
    Feature,
    Hotfix,
    Spark,
    Other(String),
}

/// `word` asks for a feature branch.
pub open spec fn names_feature(word: Seq<char>) -> bool {
    word == "f"@ || word == "feature"@ || word == "Feature"@
}

/// `word` asks for a hotfix branch.
pub open spec fn names_hotfix(word: Seq<char>) -> bool {
    word == "h"@ || word == "hotfix"@ || word == "Hotfix"@
}

/// `word` asks for a spark branch.
pub open spec fn names_spark(word: Seq<char>) -> bool {
    word == "s"@ || word == "spark"@ || word == "Spark"@
}

impl BranchType {
    /// `kind` is what `word` stands for: one of the three known kinds for
    /// its name or first letter, and for any other word the kind named by
    /// the word in lower case.
    pub open spec fn stands_for(word: Seq<char>, kind: BranchType) -> bool {
        if names_feature(word) {
            kind is Feature
        } else if names_hotfix(word) {
            kind is Hotfix
        } else if names_spark(word) {
            kind is Spark
        } else {
            kind is Other && kind.prefix() == lowercased(word)
        }
    }

    /// The first part of the names of branches of this kind.
    pub open spec fn prefix(&self) -> Seq<char> {
        match *self {
            BranchType::Feature => "feature"@,
            BranchType::Hotfix => "hotfix"@,
            BranchType::Spark => "spark"@,
            BranchType::Other(word) => word@,
        }
    }

    /// Reads a kind from a word of the command line: one of the three known
    /// kinds by its name or first letter, any other word in lower case as a
    /// kind of its own.
    pub fn parse(word: &str) -> (kind: BranchType)
        ensures
            Self::stands_for(word@, kind),
    {
        if same_text(word, "f") || same_text(word, "feature") || same_text(word, "Feature") {
            BranchType::Feature
        } else if same_text(word, "h") || same_text(word, "hotfix") || same_text(word, "Hotfix") {
            BranchType::Hotfix
        } else if same_text(word, "s") || same_text(word, "spark") || same_text(word, "Spark") {
            BranchType::Spark
        } else {
            BranchType::Other(lowercase(word))
        }
    }

    /// The first part of the names of branches of this kind.
    pub fn to_string(&self) -> (text: String)
        ensures
            text@ == self.prefix(),
    {
        match self {
            BranchType::Other(word) => word.clone(),
            BranchType::Feature => String::from_str("feature"),
            BranchType::Hotfix => String::from_str("hotfix"),
            BranchType::Spark => String::from_str("spark"),
        }
    }
}

impl std::str::FromStr for BranchType {
    type Err = std::convert::Infallible;

    /// Reads a kind from a word of the command line. Every word is one.
    fn from_str(word: &str) -> (kind: Result<BranchType, std::convert::Infallible>)
        ensures
            kind matches Ok(read) && BranchType::stands_for(word@, read),
    {
        Ok(BranchType::parse(word))
    }
}

/// What the command that starts a branch is told.
#[derive(Debug, Clone, PartialEq)]
pub struct StartBranchOpts {
    /// f: feature, h: hotfix, s: spark, etc...
    pub branch_type: BranchType,
    /// Issue number.
    pub issue_number: String,
    /// description of branch.
    pub description: String,
}

impl StartBranchOpts {
    /// The name of the branch to start: kind, a slash, the issue, a hyphen,
    /// the description.
    pub open spec fn spec_branch_name(&self) -> Seq<char> {
        self.branch_type.prefix() + "/"@ + self.issue_number@ + "-"@ + self.description@
    }

    pub fn branch_name(&self) -> (name: String)
        ensures
            name@ == self.spec_branch_name(),
    {
        let mut name = self.branch_type.to_string();
        name.append("/");
        name.append(self.issue_number.as_str());
        name.append("-");
        name.append(self.description.as_str());
        name
    }
}

} // verus!
