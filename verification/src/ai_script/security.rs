//! The static check of a generated script before it runs.
//!
//! The check is a deny-list: a script is refused where its text matches one
//! of a fixed list of patterns, each of which stands for a capability that a
//! script must not use. A script that passes is not thereby safe; the check
//! lowers the risk and does not remove it.

use vstd::prelude::*;
use vstd::string::*;
use crate::ai_script::error::ExecutionError;
use crate::pattern::{
    compile, is_match, pattern_compiles, pattern_matches, regex_source, source, Pattern,
};

verus! {

/// The denied patterns, in the order in which they are tried.
pub open spec fn deny_list() -> Seq<Seq<char>> {
    seq![
        // Access to the file system.
        r"import\s+os"@,
        r"from\s+os\s+import"@,
        r"import\s+shutil"@,
        r"from\s+shutil\s+import"@,
        r"open\s*\("@,
        r"file\s*\("@,
        // Starting other processes.
        r"import\s+subprocess"@,
        r"from\s+subprocess\s+import"@,
        r"os\.system\s*\("@,
        r"os\.popen\s*\("@,
        r"os\.exec\s*\("@,
        // Running code that is made at run time.
        r"__import__\s*\("@,
        r"eval\s*\("@,
        r"exec\s*\("@,
        r"compile\s*\("@,
        // Access to the network.
        r"import\s+urllib"@,
        r"import\s+requests"@,
        r"import\s+http"@,
        r"import\s+socket"@,
        r"from\s+urllib\s+import"@,
        r"from\s+requests\s+import"@,
        r"from\s+http\s+import"@,
        r"from\s+socket\s+import"@,
        // Access to the interpreter itself.
        r"import\s+sys"@,
        r"sys\.exit\s*\("@,
        r"sys\.modules"@,
        // Foreign code, more processes, and changing attributes by name.
        r"import\s+ctypes"@,
        r"import\s+multiprocessing"@,
        r"\.__getattr__\s*\("@,
        r"\.__setattr__\s*\("@,
    ]
}

/// Whether every pattern of `patterns` is accepted as a regular expression.
pub open spec fn all_compile(patterns: Seq<Seq<char>>) -> bool {
    forall|i: int| 0 <= i < patterns.len() ==> pattern_compiles(#[trigger] patterns[i])
}

/// Those of the first `upto` patterns that are accepted as regular
/// expressions, in their order.
pub open spec fn accepted_patterns(patterns: Seq<Seq<char>>, upto: int) -> Seq<Seq<char>>
    decreases upto,
{
    if upto <= 0 {
        Seq::empty()
    } else {
        let before = accepted_patterns(patterns, upto - 1);
        if upto <= patterns.len() && pattern_compiles(patterns[upto - 1]) {
            before.push(patterns[upto - 1])
        } else {
            before
        }
    }
}

/// The patterns that a validator denies by default: those of [`deny_list`]
/// that are accepted as regular expressions.
pub open spec fn standard_patterns() -> Seq<Seq<char>> {
    accepted_patterns(deny_list(), deny_list().len() as int)
}

/// Where every pattern is accepted, none is left out.
pub proof fn lemma_all_accepted(patterns: Seq<Seq<char>>, upto: int)
    requires
        all_compile(patterns),
        0 <= upto <= patterns.len(),
    ensures
        accepted_patterns(patterns, upto) == patterns.subrange(0, upto),
    decreases upto,
{
    if upto > 0 {
        lemma_all_accepted(patterns, upto - 1);
        assert(pattern_compiles(patterns[upto - 1]));
        assert(patterns.subrange(0, upto) =~= patterns.subrange(0, upto - 1).push(
            patterns[upto - 1],
        ));
    } else {
        assert(patterns.subrange(0, 0) =~= Seq::<Seq<char>>::empty());
    }
}

/// A pattern that is accepted stays in force, whatever becomes of the
/// others: it is among the accepted patterns.
pub proof fn lemma_accepted_stays(patterns: Seq<Seq<char>>, at: int, upto: int)
    requires
        0 <= at < upto <= patterns.len(),
        pattern_compiles(patterns[at]),
    ensures
        accepted_patterns(patterns, upto).contains(patterns[at]),
    decreases upto - at,
{
    if at + 1 < upto {
        lemma_accepted_stays(patterns, at, upto - 1);
        let before = accepted_patterns(patterns, upto - 1);
        let k = choose|k: int| 0 <= k < before.len() && before[k] == patterns[at];
        if pattern_compiles(patterns[upto - 1]) {
            assert(before.push(patterns[upto - 1])[k] == patterns[at]);
        }
    } else {
        let before = accepted_patterns(patterns, upto - 1);
        assert(before.push(patterns[at])[before.len() as int] == patterns[at]);
    }
}

/// The index of the first pattern at or after `from` that matches `script`.
pub open spec fn first_match(patterns: Seq<Seq<char>>, script: Seq<char>, from: int) -> Option<int>
    decreases patterns.len() - from,
{
    if from < 0 || from >= patterns.len() {
        None
    } else if pattern_matches(patterns[from], script) {
        Some(from)
    } else {
        first_match(patterns, script, from + 1)
    }
}

/// What [`first_match`] finds is the first pattern that matches, and it
/// finds one wherever a pattern matches.
pub proof fn lemma_first_match_is_first(patterns: Seq<Seq<char>>, script: Seq<char>, from: int)
    requires
        0 <= from,
    ensures
        match first_match(patterns, script, from) {
            Some(i) => {
                &&& from <= i < patterns.len()
                &&& pattern_matches(patterns[i], script)
                &&& forall|j: int| from <= j < i ==> !pattern_matches(#[trigger] patterns[j], script)
            },
            None => forall|j: int|
                from <= j < patterns.len() ==> !pattern_matches(#[trigger] patterns[j], script),
        },
        from == 0 ==> (first_match(patterns, script, 0) is Some <==> any_match(patterns, script)),
    decreases patterns.len() - from,
{
    if from < patterns.len() && !pattern_matches(patterns[from], script) {
        lemma_first_match_is_first(patterns, script, from + 1);
    }
}

/// Whether some pattern of `patterns` matches `script`.
pub open spec fn any_match(patterns: Seq<Seq<char>>, script: Seq<char>) -> bool {
    exists|i: int| 0 <= i < patterns.len() && pattern_matches(#[trigger] patterns[i], script)
}

/// The denied patterns, in the order in which they are tried.
pub fn deny_patterns() -> (patterns: Vec<&'static str>)
    ensures
        patterns.deep_view() == deny_list(),
{
    let patterns: Vec<&'static str> = vec![
        // Access to the file system.
        r"import\s+os",
        r"from\s+os\s+import",
        r"import\s+shutil",
        r"from\s+shutil\s+import",
        r"open\s*\(",
        r"file\s*\(",
        // Starting other processes.
        r"import\s+subprocess",
        r"from\s+subprocess\s+import",
        r"os\.system\s*\(",
        r"os\.popen\s*\(",
        r"os\.exec\s*\(",
        // Running code that is made at run time.
        r"__import__\s*\(",
        r"eval\s*\(",
        r"exec\s*\(",
        r"compile\s*\(",
        // Access to the network.
        r"import\s+urllib",
        r"import\s+requests",
        r"import\s+http",
        r"import\s+socket",
        r"from\s+urllib\s+import",
        r"from\s+requests\s+import",
        r"from\s+http\s+import",
        r"from\s+socket\s+import",
        // Access to the interpreter itself.
        r"import\s+sys",
        r"sys\.exit\s*\(",
        r"sys\.modules",
        // Foreign code, more processes, and changing attributes by name.
        r"import\s+ctypes",
        r"import\s+multiprocessing",
        r"\.__getattr__\s*\(",
        r"\.__setattr__\s*\(",
    ];
    assert(patterns.deep_view() =~= deny_list());
    patterns
}

/// The validator of generated scripts.
pub struct SecurityValidator {
    dangerous_patterns: Vec<Pattern>,
}

impl SecurityValidator {
    /// The patterns that the validator denies, in the order in which it
    /// tries them.
    pub closed spec fn patterns(&self) -> Seq<Seq<char>> {
        Seq::new(self.dangerous_patterns.len() as nat, |i: int| regex_source(self.dangerous_patterns[i]))
    }

    /// A validator for those of `patterns` that are accepted as regular
    /// expressions, in their order. A pattern that is not accepted is left
    /// out; the others stay in force.
    pub fn with_patterns(patterns: &Vec<&'static str>) -> (v: SecurityValidator)
        ensures
            v.patterns() == accepted_patterns(patterns.deep_view(), patterns.len() as int),
            all_compile(patterns.deep_view()) ==> v.patterns() == patterns.deep_view(),
    {
        let ghost all = patterns.deep_view();
        let mut compiled: Vec<Pattern> = Vec::new();
        let mut i: usize = 0;
        assert(compiled@.len() == 0);
        while i < patterns.len()
            invariant
                i <= patterns.len(),
                all == patterns.deep_view(),
                compiled.len() == accepted_patterns(all, i as int).len(),
                forall|k: int|
                    0 <= k < compiled.len() ==> regex_source(#[trigger] compiled[k])
                        == accepted_patterns(all, i as int)[k],
            decreases patterns.len() - i,
        {
            assert(all[i as int] == patterns[i as int]@);
            match compile(patterns[i]) {
                Some(re) => {
                    compiled.push(re);
                },
                None => {},
            }
            i += 1;
        }
        let v = SecurityValidator { dangerous_patterns: compiled };
        assert(v.patterns() =~= accepted_patterns(all, patterns.len() as int));
        proof {
            if all_compile(all) {
                lemma_all_accepted(all, patterns.len() as int);
                assert(all.subrange(0, all.len() as int) =~= all);
            }
        }
        v
    }

    /// A validator for the patterns of [`deny_list`]: for all of them, as
    /// long as each is accepted as a regular expression.
    pub fn new() -> (v: SecurityValidator)
        ensures
            v.patterns() == standard_patterns(),
            all_compile(deny_list()) ==> v.patterns() == deny_list(),
    {
        let patterns = deny_patterns();
        SecurityValidator::with_patterns(&patterns)
    }

    /// Refuses a script that matches a denied pattern, naming the first
    /// pattern that matches. The script is only read.
    pub fn validate_script(&self, script: &str) -> (r: Result<(), ExecutionError>)
        ensures
            r is Err <==> any_match(self.patterns(), script@),
            match first_match(self.patterns(), script@, 0) {
                Some(i) => r is Err && r->Err_0 is SecurityViolation
                    && r->Err_0->SecurityViolation_pattern@ == self.patterns()[i],
                None => r is Ok,
            },
    {
        let mut i: usize = 0;
        while i < self.dangerous_patterns.len()
            invariant
                i <= self.dangerous_patterns.len(),
                first_match(self.patterns(), script@, 0) == first_match(
                    self.patterns(),
                    script@,
                    i as int,
                ),
                forall|k: int| 0 <= k < i ==> !pattern_matches(#[trigger] self.patterns()[k], script@),
            decreases self.dangerous_patterns.len() - i,
        {
            if is_match(&self.dangerous_patterns[i], script) {
                let pattern = String::from_str(source(&self.dangerous_patterns[i]));
                assert(pattern_matches(self.patterns()[i as int], script@));
                return Err(ExecutionError::SecurityViolation { pattern });
            }
            i += 1;
        }
        Ok(())
    }

    /// Whether the script matches a denied pattern.
    pub fn is_dangerous_operation(&self, script: &str) -> (b: bool)
        ensures
            b == any_match(self.patterns(), script@),
    {
        self.validate_script(script).is_err()
    }
}

impl Default for SecurityValidator {
    fn default() -> (v: SecurityValidator)
        ensures
            v.patterns() == standard_patterns(),
            all_compile(deny_list()) ==> v.patterns() == deny_list(),
    {
        SecurityValidator::new()
    }
}

} // verus!
