//! Choosing which sheets to export, by name.
//!
//! Two optional regular-expression patterns narrow the ordered sheet-name
//! list: a keep pattern first (a name survives only if the pattern matches
//! somewhere in it), then a drop pattern (a surviving name is removed if
//! that pattern matches).  An absent pattern passes everything at its
//! stage.  Both patterns share one case-sensitivity flag.  A malformed
//! pattern is reported before any export begins, never treated as "no
//! filter".

use vstd::prelude::*;

verus! {

/// Whether a pattern compiles as a regular expression.  What
/// `regex::RegexBuilder::build` accepts depends on the pattern text and
/// the case flag alone.
pub uninterp spec fn regex_valid(pattern: Seq<char>, ignore_case: bool) -> bool;

/// Whether a pattern matches somewhere in a text.  What
/// `regex::Regex::is_match` returns depends on the pattern, the case flag
/// and the text alone.
pub uninterp spec fn regex_match(pattern: Seq<char>, ignore_case: bool, text: Seq<char>) -> bool;

/// Relies on `regex::RegexBuilder::build` (after `case_insensitive`):
/// compiling is deterministic in the pattern and the case flag, and this
/// returns the compile error's message, or nothing when the pattern is
/// well formed.
#[verifier::external_body]
fn regex_compile_error(pattern: &str, ignore_case: bool) -> (r: Option<String>)
    ensures
        r is None <==> regex_valid(pattern@, ignore_case),
{
    match regex::RegexBuilder::new(pattern).case_insensitive(ignore_case).build() {
        Ok(_) => None,
        Err(e) => Some(e.to_string()),
    }
}

/// Relies on `regex::RegexBuilder::build` and `regex::Regex::is_match`:
/// for a well-formed pattern, whether it matches somewhere in the text is
/// deterministic in the pattern, the case flag and the text.
#[verifier::external_body]
fn regex_is_match(pattern: &str, ignore_case: bool, text: &str) -> (r: bool)
    requires
        regex_valid(pattern@, ignore_case),
    ensures
        r == regex_match(pattern@, ignore_case, text@),
{
    match regex::RegexBuilder::new(pattern).case_insensitive(ignore_case).build() {
        Ok(re) => re.is_match(text),
        Err(_) => false,
    }
}

/// Which of the two patterns was malformed, with the compiler's message.
#[derive(Debug)]
pub enum PatternError {
    BadIncludePattern { message: String },
    BadExcludePattern { message: String },
}

/// The name-filter configuration: optional keep and drop patterns and one
/// case-sensitivity flag for both.
#[derive(Debug)]
pub struct NameFilter {
    /// A name survives only if this pattern matches somewhere in it.
    pub include_pattern: Option<String>,
    /// A surviving name is removed if this pattern matches somewhere in it.
    pub exclude_pattern: Option<String>,
    /// Match both patterns case-insensitively.
    pub ignore_case: bool,
}

impl NameFilter {
    /// Both patterns, where present, compile.
    pub open spec fn valid(self) -> bool {
        &&& (self.include_pattern matches Some(p) ==> regex_valid(p@, self.ignore_case))
        &&& (self.exclude_pattern matches Some(p) ==> regex_valid(p@, self.ignore_case))
    }

    /// A name survives the filter: the keep pattern (if any) matches it,
    /// and the drop pattern (if any) does not.
    pub open spec fn spec_keeps(self, name: Seq<char>) -> bool {
        &&& (self.include_pattern matches Some(p) ==> regex_match(p@, self.ignore_case, name))
        &&& (self.exclude_pattern matches Some(p) ==> !regex_match(p@, self.ignore_case, name))
    }

    /// The ordered sublist of `names` that survives the filter.
    pub open spec fn spec_filter(self, names: Seq<Seq<char>>) -> Seq<Seq<char>> {
        names.filter(|n: Seq<char>| self.spec_keeps(n))
    }

    /// Checks both patterns, keep pattern first, and reports the first
    /// malformed one with its compile error.  Succeeds exactly when both
    /// compile.
    pub fn validate(&self) -> (r: Result<(), PatternError>)
        ensures
            r is Ok <==> self.valid(),
            r matches Err(e) ==> match e {
                PatternError::BadIncludePattern { .. } => (self.include_pattern matches Some(p)
                    && !regex_valid(p@, self.ignore_case)),
                PatternError::BadExcludePattern { .. } => (self.include_pattern matches Some(p)
                    ==> regex_valid(p@, self.ignore_case)) && (self.exclude_pattern matches Some(
                    q,
                ) && !regex_valid(q@, self.ignore_case)),
            },
    {
        if let Some(p) = &self.include_pattern {
            if let Some(message) = regex_compile_error(p.as_str(), self.ignore_case) {
                return Err(PatternError::BadIncludePattern { message });
            }
        }
        if let Some(q) = &self.exclude_pattern {
            if let Some(message) = regex_compile_error(q.as_str(), self.ignore_case) {
                return Err(PatternError::BadExcludePattern { message });
            }
        }
        Ok(())
    }

    /// Whether one name survives the filter.
    pub fn keeps(&self, name: &str) -> (r: bool)
        requires
            self.valid(),
        ensures
            r == self.spec_keeps(name@),
    {
        let kept = match &self.include_pattern {
            Some(p) => regex_is_match(p.as_str(), self.ignore_case, name),
            None => true,
        };
        if !kept {
            return false;
        }
        match &self.exclude_pattern {
            Some(q) => !regex_is_match(q.as_str(), self.ignore_case, name),
            None => true,
        }
    }

    /// The ordered sublist of `names` that survives the filter, input
    /// order preserved.
    pub fn apply(&self, names: &Vec<String>) -> (r: Vec<String>)
        requires
            self.valid(),
        ensures
            r.deep_view() == self.spec_filter(names.deep_view()),
    {
        let ghost pred = |n: Seq<char>| self.spec_keeps(n);
        let mut out: Vec<String> = Vec::new();
        let count = names.len();
        proof {
            reveal(Seq::filter);
            assert(names.deep_view().subrange(0, 0) =~= Seq::<Seq<char>>::empty());
        }
        let mut i: usize = 0;
        while i < count
            invariant
                self.valid(),
                0 <= i <= count,
                count == names@.len(),
                names.deep_view().len() == names@.len(),
                pred == (|n: Seq<char>| self.spec_keeps(n)),
                out.deep_view() == names.deep_view().subrange(0, i as int).filter(pred),
            decreases count - i,
        {
            let name = vstd::std_specs::vec::vec_index(names, i);
            let ghost prefix = names.deep_view().subrange(0, i as int);
            let ghost next_prefix = names.deep_view().subrange(0, i + 1);
            proof {
                assert(names.deep_view()[i as int] == name@);
                assert(next_prefix.drop_last() =~= prefix);
                assert(next_prefix.last() == name@);
                reveal(Seq::filter);
            }
            if self.keeps(name.as_str()) {
                out.push(name.clone());
                proof {
                    assert(out.deep_view() =~= next_prefix.filter(pred));
                }
            } else {
                proof {
                    assert(out.deep_view() =~= next_prefix.filter(pred));
                }
            }
            i = i + 1;
        }
        proof {
            assert(names.deep_view().subrange(0, count as int) =~= names.deep_view());
        }
        out
    }

    /// Checks the patterns and, when both compile, filters the names; the
    /// first malformed pattern is reported instead, as `validate` reports
    /// it.
    pub fn filter_names(&self, names: &Vec<String>) -> (r: Result<Vec<String>, PatternError>)
        ensures
            r is Ok <==> self.valid(),
            r matches Ok(kept) ==> kept.deep_view() == self.spec_filter(names.deep_view()),
            r matches Err(e) ==> match e {
                PatternError::BadIncludePattern { .. } => (self.include_pattern matches Some(p)
                    && !regex_valid(p@, self.ignore_case)),
                PatternError::BadExcludePattern { .. } => (self.include_pattern matches Some(p)
                    ==> regex_valid(p@, self.ignore_case)) && (self.exclude_pattern matches Some(
                    q,
                ) && !regex_valid(q@, self.ignore_case)),
            },
    {
        match self.validate() {
            Ok(()) => Ok(self.apply(names)),
            Err(e) => Err(e),
        }
    }
}

} // verus!
