use vstd::prelude::*;
use vstd::string::StringExecFns;

verus! {

/// The name of a device's topic: the common root, the device name, then the
/// suffix.
pub open spec fn topic_name(device: Seq<char>, suffix: Seq<char>) -> Seq<char> {
    "hoek/iot/"@ + device + suffix
}

/// A message as the transport delivers it.
#[derive(Debug, Clone)]
pub struct MqttPacket {
    pub topic: String,
    pub payload: String,
}

/// The six topics of one device.
#[derive(Debug, Clone)]
pub struct TopicBundle {
    pub info_ota: String,
    pub info_error: String,
    pub info_status: String,
    pub info_id: String,
    pub cmd_ota: String,
    pub cmd_restart: String,
}

/// The inbound topic a message arrived on.
#[derive(Debug, Clone, Copy, PartialEq, Eq, Structural)]
pub enum InboundTopic {
    Ota,
    Error,
    Status,
    Id,
    Unrelated,
}

fn device_topic(device_name: &str, suffix: &str) -> (r: String)
    ensures
        r@ == topic_name(device_name@, suffix@),
{
    String::from_str("hoek/iot/").concat(device_name).concat(suffix)
}

impl TopicBundle {
    pub fn new(device_name: &str) -> (r: TopicBundle)
        ensures
            r.info_ota@ == topic_name(device_name@, "/_info/ota"@),
            r.info_error@ == topic_name(device_name@, "/_info/error"@),
            r.info_status@ == topic_name(device_name@, "/_info/status"@),
            r.info_id@ == topic_name(device_name@, "/_info/id"@),
            r.cmd_ota@ == topic_name(device_name@, "/_cmd/ota"@),
            r.cmd_restart@ == topic_name(device_name@, "/_cmd/restart"@),
    {
        TopicBundle {
            info_ota: device_topic(device_name, "/_info/ota"),
            info_error: device_topic(device_name, "/_info/error"),
            info_status: device_topic(device_name, "/_info/status"),
            info_id: device_topic(device_name, "/_info/id"),
            cmd_ota: device_topic(device_name, "/_cmd/ota"),
            cmd_restart: device_topic(device_name, "/_cmd/restart"),
        }
    }

    pub open spec fn spec_classify(self, topic: Seq<char>) -> InboundTopic {
        if topic == self.info_ota@ {
            InboundTopic::Ota
        } else if topic == self.info_error@ {
            InboundTopic::Error
        } else if topic == self.info_status@ {
            InboundTopic::Status
        } else if topic == self.info_id@ {
            InboundTopic::Id
        } else {
            InboundTopic::Unrelated
        }
    }

    /// Tells which of the inbound topics `topic` is.
    pub fn classify(&self, topic: &String) -> (r: InboundTopic)
        ensures
            r == self.spec_classify(topic@),
    {
        if *topic == self.info_ota {
            InboundTopic::Ota
        } else if *topic == self.info_error {
            InboundTopic::Error
        } else if *topic == self.info_status {
            InboundTopic::Status
        } else if *topic == self.info_id {
            InboundTopic::Id
        } else {
            InboundTopic::Unrelated
        }
    }
}

/// The four inbound topics of a bundle made for `device` are told apart:
/// each is classified as itself.
pub proof fn lemma_own_topics_classified(b: TopicBundle, device: Seq<char>)
    requires
        b.info_ota@ == topic_name(device, "/_info/ota"@),
        b.info_error@ == topic_name(device, "/_info/error"@),
        b.info_status@ == topic_name(device, "/_info/status"@),
        b.info_id@ == topic_name(device, "/_info/id"@),
    ensures
        b.spec_classify(b.info_ota@) == InboundTopic::Ota,
        b.spec_classify(b.info_error@) == InboundTopic::Error,
        b.spec_classify(b.info_status@) == InboundTopic::Status,
        b.spec_classify(b.info_id@) == InboundTopic::Id,
{
    reveal_strlit("/_info/ota");
    reveal_strlit("/_info/error");
    reveal_strlit("/_info/status");
    reveal_strlit("/_info/id");
    assert(b.info_ota@.len() != b.info_error@.len());
    assert(b.info_ota@.len() != b.info_status@.len());
    assert(b.info_ota@.len() != b.info_id@.len());
    assert(b.info_error@.len() != b.info_status@.len());
    assert(b.info_error@.len() != b.info_id@.len());
    assert(b.info_status@.len() != b.info_id@.len());
}

/// Characters that may form a device name or a topic suffix.
pub open spec fn is_name_char(c: char) -> bool {
    ('a' <= c && c <= 'z') || ('A' <= c && c <= 'Z') || ('0' <= c && c <= '9') || c == '-' || c
        == '_'
}

pub open spec fn is_name(s: Seq<char>) -> bool {
    s.len() > 0 && forall|i: int| 0 <= i < s.len() ==> is_name_char(#[trigger] s[i])
}

/// The info topic on which device `name` reports `suffix`.
pub open spec fn info_topic(name: Seq<char>, suffix: Seq<char>) -> Seq<char> {
    "hoek/iot/"@ + name + "/_info/"@ + suffix
}

fn name_char(c: char) -> (r: bool)
    ensures
        r == is_name_char(c),
{
    ('a' <= c && c <= 'z') || ('A' <= c && c <= 'Z') || ('0' <= c && c <= '9') || c == '-' || c
        == '_'
}

/// The end of the run of name characters of `t` that starts at `from`.
fn name_run_end(t: &str, from: usize) -> (r: usize)
    requires
        from <= t@.len(),
    ensures
        from <= r <= t@.len(),
        forall|i: int| from <= i < r ==> is_name_char(#[trigger] t@[i]),
        r < t@.len() ==> !is_name_char(t@[r as int]),
{
    let len = t.unicode_len();
    let mut i = from;
    while i < len
        invariant
            len == t@.len(),
            from <= i <= len,
            forall|k: int| from <= k < i ==> is_name_char(#[trigger] t@[k]),
        decreases len - i,
    {
        if !name_char(t.get_char(i)) {
            return i;
        }
        i = i + 1;
    }
    i
}

/// Whether `t` holds `lit` at `at`.
fn holds_at(t: &str, at: usize, lit: &str) -> (r: bool)
    requires
        at <= t@.len(),
    ensures
        r == (at + lit@.len() <= t@.len() && t@.subrange(at as int, at + lit@.len()) == lit@),
{
    let n = lit.unicode_len();
    if n > t.unicode_len() - at {
        return false;
    }
    String::from_str(t.substring_char(at, at + n)) == String::from_str(lit)
}

/// Splits an info topic into the device name and the suffix.
pub fn parse_info_topic(topic: &str) -> (r: Option<(String, String)>)
    ensures
        match r {
            Some((name, suffix)) => is_name(name@) && is_name(suffix@) && topic@ == info_topic(
                name@,
                suffix@,
            ),
            None => forall|n: Seq<char>, s: Seq<char>|
                is_name(n) && is_name(s) ==> topic@ != #[trigger] info_topic(n, s),
        },
{
    proof {
        reveal_strlit("hoek/iot/");
        reveal_strlit("/_info/");
    }
    let ghost t = topic@;
    let len = topic.unicode_len();
    if !holds_at(topic, 0, "hoek/iot/") {
        assert forall|n: Seq<char>, s: Seq<char>|
            is_name(n) && is_name(s) implies t != #[trigger] info_topic(n, s) by {
            if t == info_topic(n, s) {
                assert(t.subrange(0, 9) =~= "hoek/iot/"@);
            }
        }
        return None;
    }
    let end = name_run_end(topic, 9);
    if end == 9 || !holds_at(topic, end, "/_info/") {
        assert forall|n: Seq<char>, s: Seq<char>|
            is_name(n) && is_name(s) implies t != #[trigger] info_topic(n, s) by {
            if t == info_topic(n, s) {
                assert(t[9] == n[0]);
                assert forall|k: int| 9 <= k < 9 + n.len() implies t[k] == n[k - 9] by {}
                assert(t[9 + n.len() as int] == '/');
                if end < 9 + n.len() {
                    assert(is_name_char(n[end - 9]));
                }
                assert(end == 9 + n.len());
                assert(t.subrange(end as int, end + 7) =~= "/_info/"@);
            }
        }
        return None;
    }
    let start = end + 7;
    let stop = name_run_end(topic, start);
    if stop == start || stop != len {
        assert forall|n: Seq<char>, s: Seq<char>|
            is_name(n) && is_name(s) implies t != #[trigger] info_topic(n, s) by {
            if t == info_topic(n, s) {
                assert forall|k: int| 9 <= k < 9 + n.len() implies t[k] == n[k - 9] by {}
                assert(t[9 + n.len() as int] == '/');
                if end < 9 + n.len() {
                    assert(is_name_char(n[end - 9]));
                }
                assert(end == 9 + n.len());
                assert(t.len() == start + s.len());
                assert forall|k: int| start <= k < t.len() implies t[k] == s[k - start] by {}
                if stop < t.len() {
                    assert(is_name_char(s[stop - start]));
                }
            }
        }
        return None;
    }
    let name = String::from_str(topic.substring_char(9, end));
    let suffix = String::from_str(topic.substring_char(start, len));
    proof {
        assert forall|i: int| 0 <= i < name@.len() implies is_name_char(#[trigger] name@[i]) by {
            assert(name@[i] == t[9 + i]);
        }
        assert forall|i: int| 0 <= i < suffix@.len() implies is_name_char(
            #[trigger] suffix@[i],
        ) by {
            assert(suffix@[i] == t[start + i]);
        }
        assert(t =~= info_topic(name@, suffix@)) by {
            assert(t.subrange(0, 9) =~= "hoek/iot/"@);
            assert(t.subrange(end as int, start as int) =~= "/_info/"@);
            assert(t =~= t.subrange(0, 9) + t.subrange(9, end as int) + t.subrange(
                end as int,
                start as int,
            ) + t.subrange(start as int, len as int));
        }
    }
    Some((name, suffix))
}

} // verus!
