//! Directive filters.
//!
//! A directive string such as `"info,net=warn,net::tcp=trace"` is parsed by
//! `env_logger` into a [`Filter`]. This module gives that filter a model, a
//! sequence of [`Rule`]s, states over the model which records the filter lets
//! through, and proves that the rule with the longest matching prefix decides.

use vstd::prelude::*;
use vstd::utf8::encode_utf8;
use env_logger::filter::Filter;
use crate::level::Level;

verus! {

/// `env_logger::filter::Filter`, kept as it is built and read only through
/// [`filter_rules`].
#[verifier::external_type_specification]
#[verifier::external_body]
pub struct ExFilter(env_logger::filter::Filter);

/// One directive of a filter: records whose target starts with `prefix` are
/// let through up to `threshold`. A rule without a prefix is the default.
pub struct Rule {
    pub prefix: Option<Seq<char>>,
    /// 0 lets nothing through, 1 errors only, 5 everything (see [`Level::rank`]).
    pub threshold: nat,
}

impl Rule {
    /// Whether the rule applies to records of `target`.
    pub open spec fn covers(self, target: Seq<char>) -> bool {
        match self.prefix {
            None => true,
            Some(prefix) => prefix.is_prefix_of(target),
        }
    }

    /// Number of characters of the prefix; 0 for the default rule.
    pub open spec fn prefix_len(self) -> nat {
        match self.prefix {
            None => 0,
            Some(prefix) => prefix.len(),
        }
    }

    /// Number of bytes of the prefix in UTF-8; 0 for the default rule.
    pub open spec fn prefix_bytes(self) -> nat {
        match self.prefix {
            None => 0,
            Some(prefix) => encode_utf8(prefix).len(),
        }
    }
}

/// The rules that a filter holds, in the order in which it keeps them.
pub uninterp spec fn filter_rules(filter: Filter) -> Seq<Rule>;

/// The rules of the filter that `env_logger` builds from a directive string.
pub uninterp spec fn parsed_rules(directives: Seq<char>) -> Seq<Rule>;

/// The order in which a built filter keeps its rules: a prefix of more
/// bytes comes later.
pub open spec fn ordered(rules: Seq<Rule>) -> bool {
    forall|i: int, j: int|
        0 <= i <= j < rules.len() ==> (#[trigger] rules[i]).prefix_bytes() <= (
        #[trigger] rules[j]).prefix_bytes()
}

/// Index of the rule that decides for `target`: the last one that covers it,
/// or -1 where none does.
pub open spec fn deciding_rule(rules: Seq<Rule>, target: Seq<char>) -> int
    decreases rules.len(),
{
    if rules.len() == 0 {
        -1
    } else if rules.last().covers(target) {
        rules.len() - 1
    } else {
        deciding_rule(rules.drop_last(), target)
    }
}

/// Whether `rules` let a record of `level` and `target` through: a rule
/// decides, and the level is within its threshold.
pub open spec fn permits(rules: Seq<Rule>, level: Level, target: Seq<char>) -> bool {
    let d = deciding_rule(rules, target);
    d >= 0 && level.rank() <= rules[d].threshold
}

/// `Builder::new`, `Builder::parse` and `Builder::build` of
/// `env_logger::filter`, in a row: a fresh builder parses the string and
/// builds the filter. The filter's rules are a function of the string alone,
/// and `build` sorts them by the byte length of their prefixes.
#[verifier::external_body]
fn parse_filter(directives: &str) -> (filter: Filter)
    ensures
        filter_rules(filter) == parsed_rules(directives@),
        ordered(filter_rules(filter)),
{
    let mut builder = env_logger::filter::Builder::new();
    builder.parse(directives);
    builder.build()
}

/// `env_logger::filter::Filter::enabled`, on the metadata made of `level` and
/// `target`: it walks the rules from the last to the first; the first whose
/// prefix is absent or starts the target decides, by comparing the level
/// with its threshold. Without such a rule the record is refused.
#[verifier::external_body]
pub(crate) fn filter_enabled(filter: &Filter, level: Level, target: &str) -> (yes: bool)
    ensures
        yes == permits(filter_rules(*filter), level, target@),
{
    let outside = match level {
        Level::Error => log::Level::Error,
        Level::Warn => log::Level::Warn,
        Level::Info => log::Level::Info,
        Level::Debug => log::Level::Debug,
        Level::Trace => log::Level::Trace,
    };
    filter.enabled(&log::Metadata::builder().level(outside).target(target).build())
}

/// Builds the filter that a directive string describes.
///
/// The string is a comma-separated list of directives, each a level name, a
/// module path, or `path=level`. A directive that cannot be read is skipped.
pub fn build_filter(directives: &str) -> (filter: Filter)
    ensures
        filter_rules(filter) == parsed_rules(directives@),
        ordered(filter_rules(filter)),
{
    parse_filter(directives)
}

/// The deciding rule is the last rule that covers the target.
pub proof fn lemma_deciding_rule(rules: Seq<Rule>, target: Seq<char>)
    ensures
        -1 <= deciding_rule(rules, target) < rules.len(),
        deciding_rule(rules, target) >= 0 ==> rules[deciding_rule(rules, target)].covers(target),
        forall|j: int|
            deciding_rule(rules, target) < j < rules.len() ==> !(#[trigger] rules[j]).covers(
                target,
            ),
    decreases rules.len(),
{
    if rules.len() > 0 && !rules.last().covers(target) {
        let front = rules.drop_last();
        lemma_deciding_rule(front, target);
        assert forall|j: int| deciding_rule(rules, target) < j < rules.len() implies !(
        #[trigger] rules[j]).covers(target) by {
            if j < front.len() {
                assert(front[j] == rules[j]);
            }
        }
    }
}

/// A text takes at least as many bytes as it has characters, and the bytes
/// of two texts add up when one follows the other.
pub proof fn lemma_encoded_len(a: Seq<char>, b: Seq<char>)
    ensures
        encode_utf8(a + b).len() == encode_utf8(a).len() + encode_utf8(b).len(),
        encode_utf8(a).len() >= a.len(),
    decreases a.len(),
{
    if a.len() == 0 {
        assert(a + b =~= b);
    } else {
        lemma_encoded_len(a.drop_first(), b);
        assert((a + b).drop_first() =~= a.drop_first() + b);
    }
}

/// Longest prefix wins: where a rule covers the target, a rule that covers
/// it decides, and no covering rule has a longer prefix than the deciding
/// one. The default rule covers every target.
pub proof fn law_longest_prefix_wins(rules: Seq<Rule>, target: Seq<char>, j: int)
    requires
        ordered(rules),
        0 <= j < rules.len(),
        rules[j].covers(target),
    ensures
        deciding_rule(rules, target) >= j,
        rules[deciding_rule(rules, target)].covers(target),
        rules[j].prefix_len() <= rules[deciding_rule(rules, target)].prefix_len(),
{
    let d = deciding_rule(rules, target);
    lemma_deciding_rule(rules, target);
    if rules[j].prefix_len() > rules[d].prefix_len() {
        // Both prefixes start the target, so the shorter one starts the
        // longer, which then has more bytes and could not come first.
        let long = rules[j].prefix->0;
        let short = match rules[d].prefix {
            None => Seq::<char>::empty(),
            Some(prefix) => prefix,
        };
        let rest = long.skip(short.len() as int);
        assert(long =~= short + rest);
        lemma_encoded_len(short, rest);
        lemma_encoded_len(rest, Seq::<char>::empty());
        assert(rules[j].prefix_bytes() > rules[d].prefix_bytes());
    }
}

/// Less verbose passes first: where rules let a record through, they let
/// through every record of the same target that is no more verbose.
pub proof fn law_threshold_is_monotone(
    rules: Seq<Rule>,
    quiet: Level,
    loud: Level,
    target: Seq<char>,
)
    requires
        quiet.rank() <= loud.rank(),
        permits(rules, loud, target),
    ensures
        permits(rules, quiet, target),
{
}

/// Parsing is deterministic: two filters built from the same directive string
/// decide alike on every record.
pub proof fn law_parsing_is_deterministic(
    first: Filter,
    second: Filter,
    directives: Seq<char>,
    level: Level,
    target: Seq<char>,
)
    requires
        filter_rules(first) == parsed_rules(directives),
        filter_rules(second) == parsed_rules(directives),
    ensures
        permits(filter_rules(first), level, target) == permits(filter_rules(second), level, target),
{
}

} // verus!
