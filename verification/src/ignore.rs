//! Which changed paths a repository ignores. The caller reads the
//! `.gitignore` file; this module keeps every rule the matcher can take —
//! comments, blank lines and only the genuinely malformed or oversized
//! patterns are dropped — and asks the gitignore matcher about each path.

use vstd::prelude::*;
use vstd::string::StrSliceExecFns;
use crate::strutil::{concat2, concat3, seq_starts_with, str_starts_with, string_push_char};

verus! {

/// The characters the matcher strips as whitespace (Unicode
/// `White_Space`, as `char::is_whitespace` defines it).
pub open spec fn spec_is_matcher_space(c: char) -> bool {
    ||| c == '\u{0009}'
    ||| c == '\u{000A}'
    ||| c == '\u{000B}'
    ||| c == '\u{000C}'
    ||| c == '\u{000D}'
    ||| c == '\u{0020}'
    ||| c == '\u{0085}'
    ||| c == '\u{00A0}'
    ||| c == '\u{1680}'
    ||| c == '\u{2000}'
    ||| c == '\u{2001}'
    ||| c == '\u{2002}'
    ||| c == '\u{2003}'
    ||| c == '\u{2004}'
    ||| c == '\u{2005}'
    ||| c == '\u{2006}'
    ||| c == '\u{2007}'
    ||| c == '\u{2008}'
    ||| c == '\u{2009}'
    ||| c == '\u{200A}'
    ||| c == '\u{2028}'
    ||| c == '\u{2029}'
    ||| c == '\u{202F}'
    ||| c == '\u{205F}'
    ||| c == '\u{3000}'
}

/// The pattern text of a rule line: the line without its negation marker.
pub open spec fn spec_pattern_text(line: Seq<char>) -> Seq<char> {
    if line.len() > 0 && line[0] == '!' {
        line.drop_first()
    } else {
        line
    }
}

/// The text with its whitespace removed.
pub open spec fn spec_strip_spaces(s: Seq<char>) -> Seq<char>
    decreases s.len(),
{
    if s.len() == 0 {
        s
    } else if spec_is_matcher_space(s[0]) {
        spec_strip_spaces(s.drop_first())
    } else {
        seq![s[0]] + spec_strip_spaces(s.drop_first())
    }
}

/// The pattern the matcher normalizes a rule line to: the negation marker
/// and all whitespace stripped.
pub open spec fn spec_normalized(rule: Seq<char>) -> Seq<char> {
    spec_strip_spaces(spec_pattern_text(rule))
}

/// The text without one trailing `*`, as the matcher trims it before
/// wrapping the pattern.
pub open spec fn spec_star_stripped(s: Seq<char>) -> Seq<char> {
    if s.len() > 0 && s.last() == '*' {
        s.drop_last()
    } else {
        s
    }
}

/// The match-anywhere glob the matcher builds from a rule: the root, a
/// recursive segment, and the trimmed pattern.
pub open spec fn spec_anywhere_glob(root: Seq<char>, rule: Seq<char>) -> Seq<char> {
    root + "/**/"@ + spec_star_stripped(spec_normalized(rule))
}

/// The root-relative glob the matcher builds from a rule.
pub open spec fn spec_relative_glob(root: Seq<char>, rule: Seq<char>) -> Seq<char> {
    let n = spec_normalized(rule);
    let u = spec_star_stripped(n);
    if seq_starts_with(n, "**/"@) {
        u
    } else if seq_starts_with(n, "/"@) {
        root + u
    } else {
        root + "/"@ + u
    }
}

/// Every glob text the matcher can build from one rule under one root:
/// the two bases, each bare and with the two suffixes the matcher appends.
pub open spec fn spec_candidate_globs(root: Seq<char>, rule: Seq<char>) -> Seq<Seq<char>> {
    let a = spec_anywhere_glob(root, rule);
    let r = spec_relative_glob(root, rule);
    seq![a, a + "*"@, a + "**/*"@, r, r + "*"@, r + "**/*"@]
}

/// Whether the glob compiler accepts a pattern text. The answer is a
/// function of the text alone.
pub uninterp spec fn glob_accepts(pattern: Seq<char>) -> bool;

/// Relies on globset's GlobBuilder::build — the same globset the matcher
/// links, with the same parsing defaults (the builder options the matcher
/// sets are not consulted while parsing): whether the glob compiler
/// accepts `pattern`.
#[verifier::external_body]
fn glob_compiles(pattern: &str) -> (r: bool)
    ensures
        r == glob_accepts(pattern@),
{
    globset::GlobBuilder::new(pattern).build().is_ok()
}

/// A rule the matcher takes without failing: the line is short enough to
/// stay far below the compiled-pattern size cap, its normalized pattern
/// keeps at least one character, and every glob the matcher can build
/// from it compiles.
pub open spec fn spec_rule_usable(root: Seq<char>, rule: Seq<char>) -> bool {
    &&& root.len() + rule.len() <= 1024
    &&& spec_normalized(rule).len() > 0
    &&& forall|k: int|
        0 <= k < spec_candidate_globs(root, rule).len() ==> glob_accepts(
            #[trigger] spec_candidate_globs(root, rule)[k],
        )
}

/// A line of a `.gitignore` file that states a usable rule: non-empty,
/// not a comment, and one the matcher takes.
pub open spec fn is_rule_line(root: Seq<char>, line: Seq<char>) -> bool {
    &&& line.len() > 0
    &&& line[0] != '#'
    &&& spec_rule_usable(root, line)
}

/// The rule lines among `lines` for the repository at `root`, in order.
pub open spec fn spec_rule_lines(root: Seq<char>, lines: Seq<Seq<char>>) -> Seq<Seq<char>>
    decreases lines.len(),
{
    if lines.len() == 0 {
        Seq::empty()
    } else {
        let rest = spec_rule_lines(root, lines.drop_first());
        if is_rule_line(root, lines[0]) {
            seq![lines[0]] + rest
        } else {
            rest
        }
    }
}

/// Whether the matcher treats `c` as whitespace.
fn is_matcher_space(c: char) -> (r: bool)
    ensures
        r == spec_is_matcher_space(c),
{
    c == '\u{0009}' || c == '\u{000A}' || c == '\u{000B}' || c == '\u{000C}' || c == '\u{000D}'
        || c == '\u{0020}' || c == '\u{0085}' || c == '\u{00A0}' || c == '\u{1680}' || c
        == '\u{2000}' || c == '\u{2001}' || c == '\u{2002}' || c == '\u{2003}' || c == '\u{2004}'
        || c == '\u{2005}' || c == '\u{2006}' || c == '\u{2007}' || c == '\u{2008}' || c
        == '\u{2009}' || c == '\u{200A}' || c == '\u{2028}' || c == '\u{2029}' || c == '\u{202F}'
        || c == '\u{205F}' || c == '\u{3000}'
}

/// The pattern the matcher normalizes `rule` to.
fn normalized_pattern(rule: &str) -> (r: String)
    ensures
        r@ == spec_normalized(rule@),
{
    let n: usize = rule.unicode_len();
    let start: usize = if n > 0 && rule.get_char(0) == '!' {
        1
    } else {
        0
    };
    let ghost text = spec_pattern_text(rule@);
    assert(text =~= rule@.subrange(start as int, n as int));
    let mut out = String::new();
    assert(out@ =~= Seq::<char>::empty());
    assert(text.skip(0) =~= text);
    let mut i: usize = start;
    while i < n
        invariant
            start <= i <= n,
            n == rule@.len(),
            text == spec_pattern_text(rule@),
            text == rule@.subrange(start as int, n as int),
            out@ + spec_strip_spaces(text.skip(i - start)) == spec_strip_spaces(text),
        decreases n - i,
    {
        let ghost j = i - start;
        assert(text.skip(j)[0] == text[j] == rule@[i as int]);
        assert(text.skip(j).drop_first() =~= text.skip(j + 1));
        let c = rule.get_char(i);
        if !is_matcher_space(c) {
            let ghost prev = out@;
            string_push_char(&mut out, c);
            assert(out@ =~= prev + seq![c]);
            assert(out@ + spec_strip_spaces(text.skip(j + 1)) =~= spec_strip_spaces(text));
        } else {
            assert(out@ + spec_strip_spaces(text.skip(j + 1)) =~= spec_strip_spaces(text));
        }
        i += 1;
    }
    assert(text.skip(i - start) =~= Seq::<char>::empty());
    assert(out@ =~= spec_strip_spaces(text));
    out
}

/// The text without one trailing `*`.
fn star_stripped(s: &str) -> (r: String)
    ensures
        r@ == spec_star_stripped(s@),
{
    let n: usize = s.unicode_len();
    if n > 0 && s.get_char(n - 1) == '*' {
        let r = s.substring_char(0, n - 1).to_owned();
        assert(r@ =~= s@.drop_last());
        r
    } else {
        s.to_owned()
    }
}

/// Every glob text the matcher can build from `rule` under `root`.
fn candidate_globs(root: &str, rule: &str) -> (r: Vec<String>)
    ensures
        r.deep_view() == spec_candidate_globs(root@, rule@),
{
    let normalized = normalized_pattern(rule);
    let trimmed = star_stripped(normalized.as_str());
    let anywhere = concat3(root, "/**/", trimmed.as_str());
    assert(anywhere@ == spec_anywhere_glob(root@, rule@));
    let relative: String = if str_starts_with(normalized.as_str(), "**/") {
        trimmed.clone()
    } else if str_starts_with(normalized.as_str(), "/") {
        concat2(root, trimmed.as_str())
    } else {
        concat3(root, "/", trimmed.as_str())
    };
    assert(relative@ == spec_relative_glob(root@, rule@));
    let mut out: Vec<String> = Vec::new();
    out.push(anywhere.clone());
    out.push(concat2(anywhere.as_str(), "*"));
    out.push(concat2(anywhere.as_str(), "**/*"));
    out.push(relative.clone());
    out.push(concat2(relative.as_str(), "*"));
    out.push(concat2(relative.as_str(), "**/*"));
    assert(out.deep_view() =~= spec_candidate_globs(root@, rule@));
    out
}

/// Whether the matcher takes `rule` under `root` without failing.
pub fn rule_usable(root: &str, rule: &str) -> (r: bool)
    ensures
        r == spec_rule_usable(root@, rule@),
{
    let root_len: usize = root.unicode_len();
    let rule_len: usize = rule.unicode_len();
    if root_len > 1024 {
        return false;
    }
    if rule_len > 1024 - root_len {
        return false;
    }
    let normalized = normalized_pattern(rule);
    if normalized.as_str().is_empty() {
        return false;
    }
    let globs = candidate_globs(root, rule);
    let mut k: usize = 0;
    while k < globs.len()
        invariant
            k <= globs.deep_view().len(),
            globs.deep_view() == spec_candidate_globs(root@, rule@),
            forall|j: int|
                0 <= j < k ==> glob_accepts(#[trigger] spec_candidate_globs(root@, rule@)[j]),
        decreases globs.len() - k,
    {
        let glob: &String = &globs[k];
        assert(glob@ == spec_candidate_globs(root@, rule@)[k as int]);
        if !glob_compiles(glob.as_str()) {
            assert(!glob_accepts(spec_candidate_globs(root@, rule@)[k as int]));
            return false;
        }
        k += 1;
    }
    true
}

/// Keeps the rule lines of a `.gitignore` file that the matcher takes
/// under `root`, in order.
pub fn extract_rules(root: &str, lines: &Vec<String>) -> (r: Vec<String>)
    ensures
        r.deep_view() == spec_rule_lines(root@, lines.deep_view()),
{
    let ghost full = lines.deep_view();
    let mut out: Vec<String> = Vec::new();
    assert(out.deep_view() =~= Seq::<Seq<char>>::empty());
    assert(full.skip(0) =~= full);
    let mut i: usize = 0;
    while i < lines.len()
        invariant
            i <= full.len(),
            full == lines.deep_view(),
            out.deep_view() + spec_rule_lines(root@, full.skip(i as int)) == spec_rule_lines(
                root@,
                full,
            ),
        decreases lines.len() - i,
    {
        let line: &String = &lines[i];
        assert(line@ == full[i as int]);
        assert(full.skip(i as int)[0] == full[i as int]);
        assert(full.skip(i as int).drop_first() =~= full.skip(i + 1));
        let keep: bool = if line.as_str().is_empty() {
            false
        } else if line.as_str().get_char(0) == '#' {
            false
        } else {
            rule_usable(root, line.as_str())
        };
        assert(keep == is_rule_line(root@, full[i as int]));
        if keep {
            out.push(line.clone());
            assert(out.deep_view() + spec_rule_lines(root@, full.skip(i + 1)) =~= spec_rule_lines(
                root@,
                full,
            ));
        } else {
            assert(out.deep_view() + spec_rule_lines(root@, full.skip(i + 1)) =~= spec_rule_lines(
                root@,
                full,
            ));
        }
        i += 1;
    }
    assert(full.skip(i as int) =~= Seq::<Seq<char>>::empty());
    assert(out.deep_view() =~= spec_rule_lines(root@, full));
    out
}

/// What the gitignore matcher decides for a path: whether the rules in
/// `rules`, rooted at `root`, ignore `target`. The decision is a function
/// of the three arguments alone.
pub uninterp spec fn gitignore_ignores(
    root: Seq<char>,
    rules: Seq<Seq<char>>,
    target: Seq<char>,
) -> bool;

/// Relies on gitignored's Gitignore::new and Gitignore::ignores, with
/// literal separators required and case-insensitive matching: whether the
/// gitignore patterns in `rules`, rooted at `root`, ignore `target`.
///
/// The precondition keeps the matcher total: each rule's normalized
/// pattern is non-empty, so the matcher's first-character unwrap cannot
/// fire; every glob the matcher can build from a rule is one of that
/// rule's probed candidates, so every glob compilation it unwraps
/// succeeds; and the length bound keeps the compiled patterns far below
/// the glob compiler's size cap. With no rules the matcher builds no
/// pattern and no glob, so the root is unconstrained then.
#[verifier::external_body]
fn gitignore_query(root: &str, rules: &Vec<String>, target: &str) -> (r: bool)
    requires
        forall|k: int|
            0 <= k < rules.deep_view().len() ==> spec_rule_usable(
                root@,
                #[trigger] rules.deep_view()[k],
            ),
    ensures
        r == gitignore_ignores(root@, rules.deep_view(), target@),
{
    let mut matcher = gitignored::Gitignore::new(std::path::PathBuf::from(root), true, true);
    let rule_refs: Vec<&str> = rules.iter().map(|s| s.as_str()).collect();
    matcher.ignores(&rule_refs, std::path::Path::new(target))
}

/// A repository's gitignore rules, ready to be queried per path. Every
/// held rule is one the matcher takes under the held root.
pub struct GitIgnoreWrapper {
    root: String,
    rules: Vec<String>,
}

impl GitIgnoreWrapper {
    /// Every held rule is usable under the held root.
    #[verifier::type_invariant]
    closed spec fn inv(self) -> bool {
        forall|k: int|
            0 <= k < self.rules.deep_view().len() ==> spec_rule_usable(
                self.root@,
                #[trigger] self.rules.deep_view()[k],
            )
    }

    /// The repository root the rules are anchored at.
    pub closed spec fn spec_root(self) -> Seq<char> {
        self.root@
    }

    /// The held rules.
    pub closed spec fn spec_rules(self) -> Seq<Seq<char>> {
        self.rules.deep_view()
    }

    /// Builds the matcher state for the repository at `root` from the
    /// lines of its `.gitignore` file (no file means no lines): the rule
    /// lines the matcher takes are kept, in order.
    pub fn new(root: String, gitignore_lines: &Vec<String>) -> (r: GitIgnoreWrapper)
        ensures
            r.spec_root() == root@,
            r.spec_rules() == spec_rule_lines(root@, gitignore_lines.deep_view()),
    {
        let rules = extract_rules(root.as_str(), gitignore_lines);
        proof {
            lemma_rule_lines_usable(root@, gitignore_lines.deep_view());
            assert forall|k: int|
                0 <= k < rules.deep_view().len() implies spec_rule_usable(
                root@,
                #[trigger] rules.deep_view()[k],
            ) by {
                assert(rules.deep_view()[k] == spec_rule_lines(
                    root@,
                    gitignore_lines.deep_view(),
                )[k]);
            }
        }
        GitIgnoreWrapper { root, rules }
    }

    /// The held rules, for the caller's eyes.
    pub fn rules(&self) -> (r: &Vec<String>)
        ensures
            r.deep_view() == self.spec_rules(),
    {
        &self.rules
    }

    /// Whether the repository ignores `path`.
    pub fn query(&self, path: &str) -> (r: bool)
        ensures
            r == gitignore_ignores(self.spec_root(), self.spec_rules(), path@),
    {
        proof {
            use_type_invariant(&*self);
        }
        gitignore_query(self.root.as_str(), &self.rules, path)
    }
}

/// Every kept rule line is usable under the root it was kept for.
proof fn lemma_rule_lines_usable(root: Seq<char>, lines: Seq<Seq<char>>)
    ensures
        forall|k: int|
            0 <= k < spec_rule_lines(root, lines).len() ==> spec_rule_usable(
                root,
                #[trigger] spec_rule_lines(root, lines)[k],
            ),
    decreases lines.len(),
{
    if lines.len() > 0 {
        lemma_rule_lines_usable(root, lines.drop_first());
        let rest = spec_rule_lines(root, lines.drop_first());
        if is_rule_line(root, lines[0]) {
            assert forall|k: int|
                0 <= k < spec_rule_lines(root, lines).len() implies spec_rule_usable(
                root,
                #[trigger] spec_rule_lines(root, lines)[k],
            ) by {
                if k > 0 {
                    assert(spec_rule_lines(root, lines)[k] == rest[k - 1]);
                }
            }
        }
    }
}

} // verus!
