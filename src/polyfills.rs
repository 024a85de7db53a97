use vstd::prelude::*;
use vstd::string::*;
use crate::layers::{exact, request_to_import_mapping, Rule, RuleModel, rules_view};
use crate::mapping::MappingModel;
use crate::table::PatternModel;

verus! {

/// A Node.js built-in module and the browser substitute that stands in for it.
pub type Polyfill = (&'static str, &'static str);

pub open spec fn next_aliases_of() -> Seq<Polyfill> {
    seq![
        ("assert", "next/dist/compiled/assert"),
        ("buffer", "next/dist/compiled/buffer"),
        ("constants", "next/dist/compiled/constants-browserify"),
        ("crypto", "next/dist/compiled/crypto-browserify"),
        ("domain", "next/dist/compiled/domain-browser"),
        ("http", "next/dist/compiled/stream-http"),
        ("https", "next/dist/compiled/https-browserify"),
        ("os", "next/dist/compiled/os-browserify"),
        ("path", "next/dist/compiled/path-browserify"),
        ("punycode", "next/dist/compiled/punycode"),
        ("process", "next/dist/build/polyfills/process"),
        ("querystring", "next/dist/compiled/querystring-es3"),
        ("stream", "next/dist/compiled/stream-browserify"),
        ("string_decoder", "next/dist/compiled/string_decoder"),
        ("sys", "next/dist/compiled/util"),
        ("timers", "next/dist/compiled/timers-browserify"),
        ("tty", "next/dist/compiled/tty-browserify"),
        ("url", "next/dist/compiled/native-url"),
        ("util", "next/dist/compiled/util"),
        ("vm", "next/dist/compiled/vm-browserify"),
        ("zlib", "next/dist/compiled/browserify-zlib"),
        ("events", "next/dist/compiled/events"),
        ("setImmediate", "next/dist/compiled/setimmediate"),
    ]
}

/// The browser substitutes of the Node.js built-in modules.
pub fn next_aliases() -> (r: Vec<Polyfill>)
    ensures
        r@ == next_aliases_of(),
{
    let r = vec![
        ("assert", "next/dist/compiled/assert"),
        ("buffer", "next/dist/compiled/buffer"),
        ("constants", "next/dist/compiled/constants-browserify"),
        ("crypto", "next/dist/compiled/crypto-browserify"),
        ("domain", "next/dist/compiled/domain-browser"),
        ("http", "next/dist/compiled/stream-http"),
        ("https", "next/dist/compiled/https-browserify"),
        ("os", "next/dist/compiled/os-browserify"),
        ("path", "next/dist/compiled/path-browserify"),
        ("punycode", "next/dist/compiled/punycode"),
        ("process", "next/dist/build/polyfills/process"),
        ("querystring", "next/dist/compiled/querystring-es3"),
        ("stream", "next/dist/compiled/stream-browserify"),
        ("string_decoder", "next/dist/compiled/string_decoder"),
        ("sys", "next/dist/compiled/util"),
        ("timers", "next/dist/compiled/timers-browserify"),
        ("tty", "next/dist/compiled/tty-browserify"),
        ("url", "next/dist/compiled/native-url"),
        ("util", "next/dist/compiled/util"),
        ("vm", "next/dist/compiled/vm-browserify"),
        ("zlib", "next/dist/compiled/browserify-zlib"),
        ("events", "next/dist/compiled/events"),
        ("setImmediate", "next/dist/compiled/setimmediate"),
    ];
    proof {
        assert(r@ =~= next_aliases_of());
    }
    r
}

/// One exact alias per built-in, named `prefix` followed by the module's name, resolved
/// from `base` to its substitute.
pub open spec fn polyfill_rules_of(prefix: Seq<char>, base: Seq<char>) -> Seq<RuleModel> {
    next_aliases_of().map_values(
        |p: Polyfill|
            (PatternModel::Exact(prefix + p.0@), MappingModel::Direct { request: p.1@, base }),
    )
}

pub fn polyfill_rules(prefix: &str, base: &str) -> (r: Vec<Rule>)
    ensures
        rules_view(r@) == polyfill_rules_of(prefix@, base@),
{
    let aliases = next_aliases();
    let mut r: Vec<Rule> = Vec::new();
    let mut i: usize = 0;
    while i < aliases.len()
        invariant
            aliases@ == next_aliases_of(),
            i <= aliases@.len(),
            r@.len() == i,
            forall|j: int| 0 <= j < i ==> #[trigger] rules_view(r@)[j] == polyfill_rules_of(prefix@, base@)[j],
        decreases aliases@.len() - i,
    {
        let (name, target) = aliases[i];
        let mut key = String::from_str(prefix);
        key.append(name);
        let ghost before = r@;
        r.push(exact(key.as_str(), request_to_import_mapping(base, target)));
        proof {
            assert forall|j: int| 0 <= j < i + 1 implies #[trigger] rules_view(r@)[j] == polyfill_rules_of(
                prefix@,
                base@,
            )[j] by {
                if j < i {
                    assert(r@[j] == before[j]);
                    assert(rules_view(before)[j] == polyfill_rules_of(prefix@, base@)[j]);
                }
            }
        }
        i = i + 1;
    }
    proof {
        assert(rules_view(r@) =~= polyfill_rules_of(prefix@, base@));
    }
    r
}

} // verus!
