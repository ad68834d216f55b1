//! Diagnostic logging rules and their delimited text encoding: the severity
//! classes, the named logging channels, one enable/disable rule with its
//! optional process and class filters, and the ordered rule set whose
//! encoding is handed to the runtime in its logging-configuration variable.

use vstd::prelude::*;

use crate::text::{
    count_char, lemma_count_char_absent, lemma_count_char_concat, lemma_join_count_sep,
    lemma_join_push, spec_join,
};

verus! {

/// A logging severity that can scope a rule.
#[derive(Debug, Clone, Copy, PartialEq, Eq)]
pub enum DebugClass {
    Trace,
    Warn,
    Error,
    Fixme,
}

/// The canonical lowercase identifier a class is written as in the encoding.
pub open spec fn spec_class_name(c: DebugClass) -> Seq<char> {
    match c {
        DebugClass::Trace => "trace"@,
        DebugClass::Warn => "warn"@,
        DebugClass::Error => "err"@,
        DebugClass::Fixme => "fixme"@,
    }
}

impl DebugClass {
    /// The identifier this class is written as in a rule encoding.
    pub fn as_os_str(&self) -> (r: &'static str)
        ensures
            r@ == spec_class_name(*self),
    {
        match self {
            Self::Trace => "trace",
            Self::Warn => "warn",
            Self::Error => "err",
            Self::Fixme => "fixme",
        }
    }
}

/// A named logging subsystem of the runtime, with an open-ended fallback for
/// names the library does not know.
#[derive(Debug, Clone, PartialEq, Eq)]
pub enum DebugChannel {
    All,
    Heap,
    LoadDll,
    Module,
    Pid,
    Relay,
    Seh,
    Server,
    Snoop,
    Synchronous,
    Timestamp,
    Fps,
    DebugString,
    ThreadName,
    Other(String),
}

/// The name a channel is written as in the encoding: the canonical lowercase
/// identifier, or, for `Other`, the caller-supplied text verbatim.
pub open spec fn spec_channel_name(ch: DebugChannel) -> Seq<char> {
    match ch {
        DebugChannel::All => "all"@,
        DebugChannel::Heap => "heap"@,
        DebugChannel::LoadDll => "loaddll"@,
        DebugChannel::Module => "module"@,
        DebugChannel::Pid => "pid"@,
        DebugChannel::Relay => "relay"@,
        DebugChannel::Seh => "seh"@,
        DebugChannel::Server => "server"@,
        DebugChannel::Snoop => "snoop"@,
        DebugChannel::Synchronous => "synchronous"@,
        DebugChannel::Timestamp => "timestamp"@,
        DebugChannel::Fps => "fps"@,
        DebugChannel::DebugString => "debugstr"@,
        DebugChannel::ThreadName => "threadname"@,
        DebugChannel::Other(other) => other@,
    }
}

impl DebugChannel {
    /// The name this channel is written as in a rule encoding.
    pub fn as_os_str<'a>(&'a self) -> (r: &'a str)
        ensures
            r@ == spec_channel_name(*self),
    {
        match self {
            Self::All => "all",
            Self::Heap => "heap",
            Self::LoadDll => "loaddll",
            Self::Module => "module",
            Self::Pid => "pid",
            Self::Relay => "relay",
            Self::Seh => "seh",
            Self::Server => "server",
            Self::Snoop => "snoop",
            Self::Synchronous => "synchronous",
            Self::Timestamp => "timestamp",
            Self::Fps => "fps",
            Self::DebugString => "debugstr",
            Self::ThreadName => "threadname",
            Self::Other(other) => other.as_str(),
        }
    }
}

/// One logging directive: an optional target-process filter, an optional
/// severity filter, the channel it concerns, and whether it enables or
/// disables that channel. Any combination of fields is legal.
#[derive(Debug, Clone, PartialEq, Eq)]
pub struct DebugRule {
    pub process: Option<String>,
    pub class: Option<DebugClass>,
    pub channel: DebugChannel,
    pub is_enabled: bool,
}

/// One rule's encoding: each present part followed by a `:`, then the sign
/// (`+` to enable, `-` to disable) and the channel name. Nothing is escaped:
/// a process or custom channel name holding `:` or `,` corrupts the encoding,
/// a caller responsibility inherited from the text format itself.
pub open spec fn spec_rule_encoding(r: DebugRule) -> Seq<char> {
    (match r.process {
        Some(p) => p@ + ":"@,
        None => Seq::<char>::empty(),
    }) + (match r.class {
        Some(c) => spec_class_name(c) + ":"@,
        None => Seq::<char>::empty(),
    }) + (if r.is_enabled {
        "+"@
    } else {
        "-"@
    }) + spec_channel_name(r.channel)
}

/// The whole rule set's encoding: each rule's encoding in input order,
/// neighbours separated by one `,`; the empty set encodes to the empty
/// sequence.
pub open spec fn spec_rules_encoding(rules: Seq<DebugRule>) -> Seq<char> {
    spec_join(rules.map_values(|r: DebugRule| spec_rule_encoding(r)), ","@)
}

/// An ordered collection of `DebugRule`. Order is significant: it is kept
/// verbatim in the encoding, where later rules for the same channel override
/// earlier ones.
#[derive(Debug, Clone, PartialEq, Eq)]
pub struct DebugRules {
    pub rules: Vec<DebugRule>,
}

impl View for DebugRules {
    type V = Seq<DebugRule>;

    open spec fn view(&self) -> Seq<DebugRule> {
        self.rules@
    }
}

impl Default for DebugRules {
    /// The empty rule set.
    fn default() -> (r: Self)
        ensures
            r@ == Seq::<DebugRule>::empty(),
    {
        DebugRules { rules: Vec::new() }
    }
}

impl DebugRules {
    /// The empty rule set.
    pub fn new() -> (r: Self)
        ensures
            r@ == Seq::<DebugRule>::empty(),
    {
        Self::default()
    }

    /// Appends one rule, after every rule already present.
    pub fn add(self, rule: DebugRule) -> (r: Self)
        ensures
            r@ == self@.push(rule),
    {
        let mut s = self;
        s.rules.push(rule);
        s
    }

    /// Appends an unfiltered rule enabling `channel`.
    pub fn enable(self, channel: DebugChannel) -> (r: Self)
        ensures
            r@ == self@.push(
                (DebugRule { process: None, class: None, channel, is_enabled: true }),
            ),
    {
        self.add(DebugRule { process: None, class: None, channel, is_enabled: true })
    }

    /// Appends an unfiltered rule disabling `channel`.
    pub fn disable(self, channel: DebugChannel) -> (r: Self)
        ensures
            r@ == self@.push(
                (DebugRule { process: None, class: None, channel, is_enabled: false }),
            ),
    {
        self.add(DebugRule { process: None, class: None, channel, is_enabled: false })
    }

    /// Encodes the whole set as the runtime's logging subsystem parses it:
    /// each rule in input order, separated by commas; empty set, empty string.
    #[verifier::rlimit(60)]
    pub fn encode(&self) -> (r: String)
        ensures
            r@ == spec_rules_encoding(self@),
    {
        let mut out = String::new();
        let n = self.rules.len();
        let mut i: usize = 0;
        while i < n
            invariant
                n == self.rules.len(),
                i <= n,
                out@ == spec_rules_encoding(self@.take(i as int)),
            decreases n - i,
        {
            if i > 0 {
                out.append(",");
            }
            let rule = &self.rules[i];
            if let Some(process) = &rule.process {
                out.append(process.as_str());
                out.append(":");
            }
            if let Some(class) = rule.class {
                out.append(class.as_os_str());
                out.append(":");
            }
            out.append(if rule.is_enabled { "+" } else { "-" });
            out.append(rule.channel.as_os_str());
            proof {
                let f = |r: DebugRule| spec_rule_encoding(r);
                let m0 = self@.take(i as int).map_values(f);
                let m1 = self@.take(i + 1).map_values(f);
                assert(m1 =~= m0.push(f(self@[i as int])));
                if i > 0 {
                    lemma_join_push(m0, ","@, f(self@[i as int]));
                    assert(out@ =~= spec_join(m0, ","@) + ","@ + f(self@[i as int]));
                } else {
                    assert(out@ =~= f(self@[0]));
                }
            }
            i += 1;
        }
        proof {
            assert(self@.take(n as int) =~= self@);
        }
        out
    }
}

/// The caller-supplied texts of a rule avoid the `,` separator: its process
/// name, and its channel name when the channel is `Other`.
pub open spec fn rule_comma_free(r: DebugRule) -> bool {
    &&& (r.process matches Some(p) ==> count_char(p@, ',') == 0)
    &&& (r.channel matches DebugChannel::Other(s) ==> count_char(s@, ',') == 0)
}

proof fn lemma_class_name_comma_free(c: DebugClass)
    ensures
        count_char(spec_class_name(c), ',') == 0,
{
    match c {
        DebugClass::Trace => {
            reveal_strlit("trace");
            lemma_count_char_absent("trace"@, ',');
        },
        DebugClass::Warn => {
            reveal_strlit("warn");
            lemma_count_char_absent("warn"@, ',');
        },
        DebugClass::Error => {
            reveal_strlit("err");
            lemma_count_char_absent("err"@, ',');
        },
        DebugClass::Fixme => {
            reveal_strlit("fixme");
            lemma_count_char_absent("fixme"@, ',');
        },
    }
}

proof fn lemma_channel_name_comma_free(ch: DebugChannel)
    requires
        ch matches DebugChannel::Other(s) ==> count_char(s@, ',') == 0,
    ensures
        count_char(spec_channel_name(ch), ',') == 0,
{
    match ch {
        DebugChannel::All => {
            reveal_strlit("all");
            lemma_count_char_absent("all"@, ',');
        },
        DebugChannel::Heap => {
            reveal_strlit("heap");
            lemma_count_char_absent("heap"@, ',');
        },
        DebugChannel::LoadDll => {
            reveal_strlit("loaddll");
            lemma_count_char_absent("loaddll"@, ',');
        },
        DebugChannel::Module => {
            reveal_strlit("module");
            lemma_count_char_absent("module"@, ',');
        },
        DebugChannel::Pid => {
            reveal_strlit("pid");
            lemma_count_char_absent("pid"@, ',');
        },
        DebugChannel::Relay => {
            reveal_strlit("relay");
            lemma_count_char_absent("relay"@, ',');
        },
        DebugChannel::Seh => {
            reveal_strlit("seh");
            lemma_count_char_absent("seh"@, ',');
        },
        DebugChannel::Server => {
            reveal_strlit("server");
            lemma_count_char_absent("server"@, ',');
        },
        DebugChannel::Snoop => {
            reveal_strlit("snoop");
            lemma_count_char_absent("snoop"@, ',');
        },
        DebugChannel::Synchronous => {
            reveal_strlit("synchronous");
            lemma_count_char_absent("synchronous"@, ',');
        },
        DebugChannel::Timestamp => {
            reveal_strlit("timestamp");
            lemma_count_char_absent("timestamp"@, ',');
        },
        DebugChannel::Fps => {
            reveal_strlit("fps");
            lemma_count_char_absent("fps"@, ',');
        },
        DebugChannel::DebugString => {
            reveal_strlit("debugstr");
            lemma_count_char_absent("debugstr"@, ',');
        },
        DebugChannel::ThreadName => {
            reveal_strlit("threadname");
            lemma_count_char_absent("threadname"@, ',');
        },
        DebugChannel::Other(_) => {},
    }
}

proof fn lemma_rule_encoding_comma_free(r: DebugRule)
    requires
        rule_comma_free(r),
    ensures
        count_char(spec_rule_encoding(r), ',') == 0,
{
    reveal_strlit(":");
    lemma_count_char_absent(":"@, ',');
    reveal_strlit("+");
    lemma_count_char_absent("+"@, ',');
    reveal_strlit("-");
    lemma_count_char_absent("-"@, ',');
    lemma_class_name_comma_free(match r.class {
        Some(c) => c,
        None => DebugClass::Trace,
    });
    lemma_channel_name_comma_free(r.channel);
    let p0 = match r.process {
        Some(p) => p@ + ":"@,
        None => Seq::<char>::empty(),
    };
    let p1 = match r.class {
        Some(c) => spec_class_name(c) + ":"@,
        None => Seq::<char>::empty(),
    };
    let p2 = if r.is_enabled {
        "+"@
    } else {
        "-"@
    };
    let p3 = spec_channel_name(r.channel);
    if r.process is Some {
        lemma_count_char_concat(r.process->Some_0@, ":"@, ',');
    }
    if r.class is Some {
        lemma_count_char_concat(spec_class_name(r.class->Some_0), ":"@, ',');
    }
    lemma_count_char_concat(p0, p1, ',');
    lemma_count_char_concat(p0 + p1, p2, ',');
    lemma_count_char_concat(p0 + p1 + p2, p3, ',');
}

/// Order preservation of the encoding: the rule appended last is encoded
/// last, after one `,` separator following everything already encoded.
pub proof fn lemma_encoding_order(rules: Seq<DebugRule>, r: DebugRule)
    requires
        rules.len() > 0,
    ensures
        spec_rules_encoding(rules.push(r)) == spec_rules_encoding(rules) + ","@ + spec_rule_encoding(
            r,
        ),
{
    let f = |x: DebugRule| spec_rule_encoding(x);
    assert(rules.push(r).map_values(f) =~= rules.map_values(f).push(f(r)));
    lemma_join_push(rules.map_values(f), ","@, f(r));
}

/// Every non-empty rule set whose caller-supplied texts avoid `,` encodes to
/// a string with exactly one `,` separator per gap between rules: one fewer
/// than the number of rules.
pub proof fn lemma_encoding_separator_count(rules: Seq<DebugRule>)
    requires
        rules.len() > 0,
        forall|i: int| 0 <= i < rules.len() ==> rule_comma_free(#[trigger] rules[i]),
    ensures
        count_char(spec_rules_encoding(rules), ',') == rules.len() - 1,
{
    let f = |x: DebugRule| spec_rule_encoding(x);
    let m = rules.map_values(f);
    assert forall|i: int| 0 <= i < m.len() implies count_char(#[trigger] m[i], ',') == 0 by {
        lemma_rule_encoding_comma_free(rules[i]);
    }
    reveal_strlit(",");
    assert(","@.drop_last() =~= Seq::<char>::empty());
    assert(count_char(Seq::<char>::empty(), ',') == 0);
    assert(count_char(","@, ',') == 1);
    lemma_join_count_sep(m, ","@, ',');
}

} // verus!
