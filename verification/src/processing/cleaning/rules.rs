//! Cleaning rules: regular-expression removals and replacements, pattern
//! keeping and case or whitespace transforms, applied in priority order.
use vstd::prelude::*;
use crate::crawl_core::error::CrawlError;
use crate::byte_text::{bytes_of, byte_slice};
use crate::patterns::{match_spans, regex_compile_error, regex_error, regex_match_spans, regex_replaced, replace_all, spans_view};
use vstd::utf8::{decode_utf8, is_char_boundary};
use crate::text_util::{concat_str, lowercase_of, str_eq, to_lowercase, to_uppercase, trim_seq, trim_str, uppercase_of};

verus! {

/// What a rule does with the text its pattern matches.
#[derive(Clone, Copy, Debug, PartialEq, Eq, Structural)]
pub enum RuleType {
    Remove,
    Replace,
    KeepOnly,
    Transform,
}

/// One cleaning rule.
#[derive(Debug)]
pub struct CleaningRule {
    pub name: String,
    pub rule_type: RuleType,
    pub pattern: String,
    pub replacement: Option<String>,
    pub enabled: bool,
    pub priority: u8,
}

impl Clone for CleaningRule {
    fn clone(&self) -> (r: Self)
        ensures
            r.name@ == self.name@,
            r.rule_type == self.rule_type,
            r.pattern@ == self.pattern@,
            crate::text_util::opt_seq(r.replacement) == crate::text_util::opt_seq(self.replacement),
            r.enabled == self.enabled,
            r.priority == self.priority,
    {
        CleaningRule {
            name: self.name.clone(),
            rule_type: self.rule_type,
            pattern: self.pattern.clone(),
            replacement: crate::text_util::clone_opt_string(&self.replacement),
            enabled: self.enabled,
            priority: self.priority,
        }
    }
}

/// Why a rule is rejected, if it is: its pattern does not compile, or it
/// replaces without a replacement.
pub open spec fn rule_error(r: CleaningRule) -> Option<Seq<char>> {
    match regex_compile_error(r.pattern@) {
        Some(e) => Some("Invalid regex pattern in rule '"@ + r.name@ + "': "@ + e),
        None => if r.rule_type == RuleType::Replace && r.replacement is None {
            Some("Replace rule '"@ + r.name@ + "' must have a replacement value"@)
        } else {
            None
        },
    }
}

impl CleaningRule {
    /// An enabled rule of priority 50 removing what `pattern` matches.
    pub fn remove(name: &str, pattern: &str) -> (r: Self)
        ensures
            r.name@ == name@,
            r.rule_type == RuleType::Remove,
            r.pattern@ == pattern@,
            r.replacement is None,
            r.enabled,
            r.priority == 50,
    {
        CleaningRule {
            name: name.to_string(),
            rule_type: RuleType::Remove,
            pattern: pattern.to_string(),
            replacement: None,
            enabled: true,
            priority: 50,
        }
    }

    /// An enabled rule of priority 50 replacing what `pattern` matches.
    pub fn replace(name: &str, pattern: &str, replacement: &str) -> (r: Self)
        ensures
            r.name@ == name@,
            r.rule_type == RuleType::Replace,
            r.pattern@ == pattern@,
            r.replacement matches Some(s) && s@ == replacement@,
            r.enabled,
            r.priority == 50,
    {
        CleaningRule {
            name: name.to_string(),
            rule_type: RuleType::Replace,
            pattern: pattern.to_string(),
            replacement: Some(replacement.to_string()),
            enabled: true,
            priority: 50,
        }
    }

    /// Accepts a rule whose pattern compiles and that has a replacement when
    /// it replaces.
    pub fn validate(&self) -> (r: Result<(), CrawlError>)
        ensures
            match rule_error(*self) {
                None => r is Ok,
                Some(m) => r matches Err(CrawlError::CleaningRuleError(s)) && s@ == m,
            },
    {
        proof {
            reveal_strlit("Invalid regex pattern in rule '");
            reveal_strlit("': ");
            reveal_strlit("Replace rule '");
            reveal_strlit("' must have a replacement value");
        }
        match regex_error(self.pattern.as_str()) {
            Some(e) => {
                let mut msg = concat_str("Invalid regex pattern in rule '", self.name.as_str());
                msg.append("': ");
                msg.append(e.as_str());
                return Err(CrawlError::CleaningRuleError(msg));
            },
            None => {},
        }
        if self.rule_type == RuleType::Replace && self.replacement.is_none() {
            let mut msg = concat_str("Replace rule '", self.name.as_str());
            msg.append("' must have a replacement value");
            return Err(CrawlError::CleaningRuleError(msg));
        }
        Ok(())
    }
}

/// The texts of the matches of a pattern in a text, in order.
pub open spec fn regex_found(pattern: Seq<char>, text: Seq<char>) -> Seq<Seq<char>> {
    regex_match_spans(pattern, text).map_values(
        |sp: (int, int)| decode_utf8(bytes_of(text).subrange(sp.0, sp.1)),
    )
}

/// The texts of the matches of a pattern that compiles.
fn find_all(pattern: &str, text: &str) -> (r: Vec<String>)
    requires
        regex_compile_error(pattern@) is None,
    ensures
        crate::text_util::strings_view(r@) == regex_found(pattern@, text@),
{
    let spans = match_spans(pattern, text);
    let ghost sv = spans_view(spans@);
    let mut out: Vec<String> = Vec::new();
    let mut i: usize = 0;
    while i < spans.len()
        invariant
            sv == spans_view(spans@),
            sv == regex_match_spans(pattern@, text@),
            i <= spans@.len(),
            forall|j: int|
                0 <= j < spans@.len() ==> {
                    let sp = #[trigger] spans@[j];
                    &&& sp.0 <= sp.1 <= bytes_of(text@).len()
                    &&& is_char_boundary(bytes_of(text@), sp.0 as int)
                    &&& is_char_boundary(bytes_of(text@), sp.1 as int)
                },
            out@.len() == i,
            forall|j: int|
                0 <= j < i ==> (#[trigger] out@[j])@ == decode_utf8(
                    bytes_of(text@).subrange(spans@[j].0 as int, spans@[j].1 as int),
                ),
        decreases spans@.len() - i,
    {
        let (a, b) = spans[i];
        out.push(byte_slice(text, a, b));
        i = i + 1;
    }
    proof {
        assert(crate::text_util::strings_view(out@) =~= regex_found(pattern@, text@));
    }
    out
}

/// The texts joined with single spaces.
pub open spec fn joined_with_space(v: Seq<Seq<char>>) -> Seq<char>
    decreases v.len(),
{
    if v.len() == 0 {
        Seq::empty()
    } else if v.len() == 1 {
        v[0]
    } else {
        joined_with_space(v.drop_last()) + " "@ + v.last()
    }
}

fn join_space(v: &Vec<String>) -> (r: String)
    ensures
        r@ == joined_with_space(crate::text_util::strings_view(v@)),
{
    let ghost sv = crate::text_util::strings_view(v@);
    let mut r = String::new();
    let mut i: usize = 0;
    while i < v.len()
        invariant
            i <= v@.len(),
            sv == crate::text_util::strings_view(v@),
            r@ == joined_with_space(sv.take(i as int)),
        decreases v@.len() - i,
    {
        proof {
            assert(sv.take(i as int + 1).drop_last() =~= sv.take(i as int));
            reveal_strlit(" ");
        }
        if i > 0 {
            r.append(" ");
        }
        r.append(v[i].as_str());
        proof {
            if i == 0 {
                assert(sv.take(1) =~= seq![sv[0]]);
            }
        }
        i = i + 1;
    }
    proof {
        assert(sv.take(v@.len() as int) =~= sv);
    }
    r
}

/// What one rule does to a text.
pub open spec fn rule_applied(r: CleaningRule, text: Seq<char>) -> Seq<char> {
    match r.rule_type {
        RuleType::Remove => regex_replaced(r.pattern@, text, Seq::empty()),
        RuleType::Replace => match r.replacement {
            Some(rep) => regex_replaced(r.pattern@, text, rep@),
            None => text,
        },
        RuleType::KeepOnly => joined_with_space(regex_found(r.pattern@, text)),
        RuleType::Transform => if r.pattern@ == "lowercase"@ {
            lowercase_of(text)
        } else if r.pattern@ == "uppercase"@ {
            uppercase_of(text)
        } else if r.pattern@ == "trim"@ {
            trim_seq(text)
        } else {
            text
        },
    }
}

/// What a list of rules does to a text, first rule first.
pub open spec fn rules_applied(rules: Seq<CleaningRule>, text: Seq<char>) -> Seq<char>
    decreases rules.len(),
{
    if rules.len() == 0 {
        text
    } else {
        rule_applied(rules.last(), rules_applied(rules.drop_last(), text))
    }
}

/// The rules of priority `p`, in their given order.
pub open spec fn with_priority(rules: Seq<CleaningRule>, p: int) -> Seq<CleaningRule> {
    rules.filter(|r: CleaningRule| r.priority == p)
}

/// The rules by priority, highest first, keeping the given order among
/// rules of one priority (a stable sort): the rules of priority 255, then
/// 254, and so on down to `low`.
pub open spec fn by_priority_from(rules: Seq<CleaningRule>, low: int) -> Seq<CleaningRule>
    decreases 256 - low,
{
    if low >= 256 || low < 0 {
        Seq::empty()
    } else {
        by_priority_from(rules, low + 1) + with_priority(rules, low)
    }
}

/// The enabled rules among a list.
pub open spec fn enabled_rules(rules: Seq<CleaningRule>) -> Seq<CleaningRule> {
    rules.filter(|r: CleaningRule| r.enabled)
}

/// The first rule of a list that is rejected, with its message.
pub open spec fn first_rule_error(rules: Seq<CleaningRule>) -> Option<Seq<char>>
    decreases rules.len(),
{
    if rules.len() == 0 {
        None
    } else {
        match rule_error(rules[0]) {
            Some(m) => Some(m),
            None => first_rule_error(rules.drop_first()),
        }
    }
}

/// Applies cleaning rules, highest priority first.
#[derive(Debug)]
pub struct CleaningEngine {
    rules: Vec<CleaningRule>,
}

impl CleaningEngine {
    /// The rules in application order.
    pub closed spec fn rules(&self) -> Seq<CleaningRule> {
        self.rules@
    }

    /// Every rule held compiles.
    pub closed spec fn wf(&self) -> bool {
        forall|i: int| 0 <= i < self.rules@.len() ==> #[trigger] rule_error(self.rules@[i]) is None
    }

    /// An engine for the enabled rules, ordered by priority (highest first,
    /// stable); the first rejected rule in that order refuses the whole set.
    pub fn new(rules: Vec<CleaningRule>) -> (r: Result<Self, CrawlError>)
        ensures
            match first_rule_error(enabled_rules(by_priority_from(rules@, 0))) {
                None => r matches Ok(e) && e.wf() && e.rules() == enabled_rules(by_priority_from(rules@, 0)),
                Some(m) => r matches Err(CrawlError::CleaningRuleError(s)) && s@ == m,
            },
    {
        let ghost input = rules@;
        let ordered = order_by_priority(rules);
        let ghost sorted = ordered@;
        assert(sorted == by_priority_from(input, 0));
        let mut rest = ordered;
        let mut kept: Vec<CleaningRule> = Vec::new();
        let mut n: usize = 0;
        assert(sorted.len() == rest.len());
        assert(sorted.take(0).filter(|r: CleaningRule| r.enabled) =~= Seq::<CleaningRule>::empty());
        assert(sorted.skip(0) =~= sorted);
        while rest.len() > 0
            invariant
                input == rules@,
                sorted == by_priority_from(input, 0),
                rest@ == sorted.skip(n as int),
                sorted.len() <= usize::MAX,
                n <= sorted.len(),
                kept@ == enabled_rules(sorted.take(n as int)),
                first_rule_error(enabled_rules(sorted.take(n as int))) is None,
                forall|i: int| 0 <= i < kept@.len() ==> #[trigger] rule_error(kept@[i]) is None,
                first_rule_error(enabled_rules(sorted)) == first_rule_error(enabled_rules(sorted.skip(n as int))),
            decreases rest@.len(),
        {
            proof {
                assert(n < sorted.len());
                assert(sorted.skip(n as int)[0] == sorted[n as int]);
                let t = sorted.take(n as int + 1);
                assert(t.drop_last() =~= sorted.take(n as int));
                reveal(Seq::filter);
                let sk = sorted.skip(n as int);
                assert(sk.drop_first() =~= sorted.skip(n as int + 1));
                lemma_first_error_step(sk);
            }
            let ghost sk_next = sorted.skip(n as int + 1);
            let rule = rest.remove(0);
            proof {
                assert(rest@ =~= sorted.skip(n as int + 1));
            }
            if rule.enabled {
                match rule.validate() {
                    Err(e) => {
                        proof {
                            assert(rule == sorted[n as int]);
                            lemma_first_error_prefix(sorted, n as int);
                        }
                        return Err(e);
                    },
                    Ok(()) => {},
                }
                kept.push(rule);
                proof {
                    lemma_first_error_extend(enabled_rules(sorted.take(n as int)), rule);
                    let rest_e = enabled_rules(sk_next);
                    let cur = seq![rule] + rest_e;
                    assert(cur[0] == rule);
                    assert(cur.drop_first() =~= rest_e);
                }
            }
            n = n + 1;
        }
        proof {
            assert(sorted.take(sorted.len() as int) =~= sorted);
            assert(sorted.skip(n as int).len() == 0);
            assert(enabled_rules(sorted.skip(n as int)) =~= Seq::<CleaningRule>::empty());
        }
        Ok(CleaningEngine { rules: kept })
    }

    /// Applies every rule in order.
    pub fn apply_rules(&self, text: &str) -> (r: String)
        requires
            self.wf(),
        ensures
            r@ == rules_applied(self.rules(), text@),
    {
        let mut result = text.to_string();
        let mut i: usize = 0;
        while i < self.rules.len()
            invariant
                self.wf(),
                i <= self.rules@.len(),
                result@ == rules_applied(self.rules@.take(i as int), text@),
            decreases self.rules@.len() - i,
        {
            proof {
                assert(self.rules@.take(i as int + 1).drop_last() =~= self.rules@.take(i as int));
            }
            let rule = &self.rules[i];
            proof {
                assert(rule_error(self.rules@[i as int]) is None);
            }
            result = apply_one(rule, result.as_str());
            i = i + 1;
        }
        proof {
            assert(self.rules@.take(self.rules@.len() as int) =~= self.rules@);
        }
        result
    }

    /// The rules that remove markup, runs of whitespace, URLs and e-mail
    /// addresses, and normalize quotes and dashes.
    pub fn default_rules() -> (r: Vec<CleaningRule>)
        ensures
            r@.len() == 6,
            r@[0].name@ == "remove_html_tags"@ && r@[0].pattern@ == "<[^>]*>"@ && r@[0].rule_type == RuleType::Remove,
            r@[1].name@ == "remove_extra_whitespace"@ && r@[1].pattern@ == "\\s+"@,
            r@[2].name@ == "remove_urls"@ && r@[2].pattern@ == "https?://[^\\s]+"@,
            r@[3].name@ == "remove_email"@,
            r@[4].name@ == "normalize_quotes"@ && r@[4].rule_type == RuleType::Replace,
            r@[5].name@ == "normalize_dashes"@ && r@[5].rule_type == RuleType::Replace,
            forall|i: int| 0 <= i < 6 ==> (#[trigger] r@[i]).enabled && r@[i].priority == 50,
    {
        let mut v: Vec<CleaningRule> = Vec::new();
        v.push(CleaningRule::remove("remove_html_tags", "<[^>]*>"));
        v.push(CleaningRule::remove("remove_extra_whitespace", "\\s+"));
        v.push(CleaningRule::remove("remove_urls", "https?://[^\\s]+"));
        v.push(CleaningRule::remove("remove_email", "[a-zA-Z0-9._%+-]+@[a-zA-Z0-9.-]+\\.[a-zA-Z]{2,}"));
        v.push(CleaningRule::replace("normalize_quotes", "[''`]", "'"));
        v.push(CleaningRule::replace("normalize_dashes", "[\u{2013}\u{2014}]", "-"));
        v
    }

    /// The rules that remove Chinese, Japanese and Korean script.
    pub fn cjk_removal_rules() -> (r: Vec<CleaningRule>)
        ensures
            r@.len() == 4,
            forall|i: int| 0 <= i < 4 ==> (#[trigger] r@[i]).rule_type == RuleType::Remove && r@[i].enabled,
    {
        let mut v: Vec<CleaningRule> = Vec::new();
        v.push(CleaningRule::remove("remove_chinese", "[\\u4e00-\\u9fff]+"));
        v.push(CleaningRule::remove("remove_japanese_hiragana", "[\\u3040-\\u309f]+"));
        v.push(CleaningRule::remove("remove_japanese_katakana", "[\\u30a0-\\u30ff]+"));
        v.push(CleaningRule::remove("remove_korean", "[\\uac00-\\ud7af]+"));
        v
    }

    /// The rules that keep only ASCII words without digits or symbols and
    /// collapse whitespace.
    pub fn aggressive_rules() -> (r: Vec<CleaningRule>)
        ensures
            r@.len() == 4,
            r@[3].rule_type == RuleType::Replace,
            forall|i: int| 0 <= i < 4 ==> (#[trigger] r@[i]).enabled,
    {
        let mut v: Vec<CleaningRule> = Vec::new();
        v.push(CleaningRule::remove("remove_non_ascii", "[^\\x00-\\x7F]+"));
        v.push(CleaningRule::remove("remove_numbers", "\\d+"));
        v.push(CleaningRule::remove("remove_special_chars", "[^\\w\\s]"));
        v.push(CleaningRule::replace("normalize_whitespace", "\\s+", " "));
        v
    }
}

fn apply_one(rule: &CleaningRule, text: &str) -> (r: String)
    requires
        rule_error(*rule) is None,
    ensures
        r@ == rule_applied(*rule, text@),
{
    match rule.rule_type {
        RuleType::Remove => {
            let r = replace_all(rule.pattern.as_str(), text, "");
            proof {
                reveal_strlit("");
                assert(""@ =~= Seq::<char>::empty());
            }
            r
        },
        RuleType::Replace => match &rule.replacement {
            Some(rep) => replace_all(rule.pattern.as_str(), text, rep.as_str()),
            None => text.to_string(),
        },
        RuleType::KeepOnly => {
            let found = find_all(rule.pattern.as_str(), text);
            join_space(&found)
        },
        RuleType::Transform => {
            proof {
                reveal_strlit("lowercase");
                reveal_strlit("uppercase");
                reveal_strlit("trim");
            }
            if str_eq(rule.pattern.as_str(), "lowercase") {
                to_lowercase(text)
            } else if str_eq(rule.pattern.as_str(), "uppercase") {
                to_uppercase(text)
            } else if str_eq(rule.pattern.as_str(), "trim") {
                trim_str(text)
            } else {
                text.to_string()
            }
        },
    }
}

proof fn lemma_first_error_step(s: Seq<CleaningRule>)
    requires
        s.len() > 0,
    ensures
        enabled_rules(s) == if s[0].enabled {
            seq![s[0]] + enabled_rules(s.drop_first())
        } else {
            enabled_rules(s.drop_first())
        },
{
    assert(s =~= seq![s[0]] + s.drop_first());
    s.drop_first().lemma_filter_prepend(s[0], |r: CleaningRule| r.enabled);
    if s[0].enabled {
        assert(enabled_rules(s) =~= seq![s[0]] + enabled_rules(s.drop_first()));
    } else {
        assert(enabled_rules(s) =~= enabled_rules(s.drop_first()));
    }
}

proof fn lemma_first_error_prefix(sorted: Seq<CleaningRule>, n: int)
    requires
        0 <= n < sorted.len(),
        sorted[n].enabled,
        rule_error(sorted[n]) is Some,
        first_rule_error(enabled_rules(sorted)) == first_rule_error(enabled_rules(sorted.skip(n))),
    ensures
        first_rule_error(enabled_rules(sorted)) == rule_error(sorted[n]),
{
    let sk = sorted.skip(n);
    assert(sk[0] == sorted[n]);
    lemma_first_error_step(sk);
    let e = enabled_rules(sk);
    assert(e == seq![sk[0]] + enabled_rules(sk.drop_first()));
    assert(e[0] == sorted[n]);
    assert(e.len() > 0);
}

proof fn lemma_first_error_extend(s: Seq<CleaningRule>, x: CleaningRule)
    requires
        first_rule_error(s) is None,
        rule_error(x) is None,
    ensures
        first_rule_error(s.push(x)) is None,
    decreases s.len(),
{
    if s.len() == 0 {
        assert(s.push(x)[0] == x);
        assert(s.push(x).drop_first() =~= Seq::<CleaningRule>::empty());
        assert(first_rule_error(Seq::<CleaningRule>::empty()) is None);
    } else {
        assert(rule_error(s[0]) is None);
        assert(first_rule_error(s.drop_first()) is None);
        lemma_first_error_extend(s.drop_first(), x);
        assert(s.push(x)[0] == s[0]);
        assert(s.push(x).drop_first() =~= s.drop_first().push(x));
    }
}

/// The rules by priority, highest first, stable.
fn order_by_priority(rules: Vec<CleaningRule>) -> (r: Vec<CleaningRule>)
    ensures
        r@ == by_priority_from(rules@, 0),
{
    let ghost src = rules@;
    let mut buckets: Vec<Vec<CleaningRule>> = Vec::new();
    let mut k: usize = 0;
    while k < 256
        invariant
            k <= 256,
            buckets@.len() == k,
            forall|q: int| 0 <= q < k ==> (#[trigger] buckets@[q])@.len() == 0,
        decreases 256 - k,
    {
        buckets.push(Vec::new());
        k = k + 1;
    }
    let mut rest = rules;
    let mut n: usize = 0;
    assert(src.len() == rest.len());
    proof {
        assert forall|q: int| 0 <= q < 256 implies (#[trigger] buckets@[q])@ == src.take(0).filter(
            |r: CleaningRule| r.priority == q,
        ) by {
            assert(src.take(0).filter(|r: CleaningRule| r.priority == q) =~= Seq::<CleaningRule>::empty());
        }
    }
    while rest.len() > 0
        invariant
            rest@ == src.skip(n as int),
            src.len() <= usize::MAX,
            n <= src.len(),
            buckets@.len() == 256,
            forall|q: int| 0 <= q < 256 ==> (#[trigger] buckets@[q])@ == src.take(n as int).filter(
                |r: CleaningRule| r.priority == q,
            ),
        decreases rest@.len(),
    {
        proof {
            assert(n < src.len());
            assert(src.skip(n as int)[0] == src[n as int]);
            let t = src.take(n as int + 1);
            assert(t.drop_last() =~= src.take(n as int));
            reveal(Seq::filter);
        }
        let rule = rest.remove(0);
        proof {
            assert(rest@ =~= src.skip(n as int + 1));
        }
        let p = rule.priority as usize;
        let ghost b0 = buckets@;
        let mut b = buckets.remove(p);
        b.push(rule);
        buckets.insert(p, b);
        proof {
            assert(buckets@ =~= b0.update(p as int, b));
            assert forall|q: int| 0 <= q < 256 implies (#[trigger] buckets@[q])@ == src.take(n as int + 1).filter(
                |r: CleaningRule| r.priority == q,
            ) by {
                let t = src.take(n as int + 1);
                assert(t.last() == src[n as int]);
                if q != p as int {
                    assert(buckets@[q] == b0[q]);
                }
            }
        }
        n = n + 1;
    }
    proof {
        assert(src.take(src.len() as int) =~= src);
    }
    let mut ordered: Vec<CleaningRule> = Vec::new();
    proof {
        assert(ordered@ =~= by_priority_from(src, 256));
    }
    while buckets.len() > 0
        invariant
            buckets@.len() <= 256,
            forall|q: int| 0 <= q < buckets@.len() ==> (#[trigger] buckets@[q])@ == with_priority(src, q),
            ordered@ == by_priority_from(src, buckets@.len() as int),
        decreases buckets@.len(),
    {
        let ghost len0 = buckets@.len();
        let mut b = buckets.pop().unwrap();
        proof {
            assert(b@ == with_priority(src, len0 - 1));
        }
        ordered.append(&mut b);
    }
    ordered
}

} // verus!
