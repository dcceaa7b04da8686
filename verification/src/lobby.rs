use crate::gateway::GatewayReply;
use vstd::prelude::*;

verus! {

/// One participant of a chat room of the game client.
#[derive(Debug, PartialEq)]
pub struct Participant {
    pub cid: String,
    pub game_name: String,
    pub game_tag: String,
    pub muted: bool,
    pub name: String,
    pub pid: String,
    pub puuid: String,
    pub region: String,
}

/// The participants of the active champion-select phase, in display order.
#[derive(Debug, PartialEq)]
pub struct Lobby {
    pub participants: Vec<Participant>,
}

impl View for Lobby {
    type V = Seq<Participant>;

    open spec fn view(&self) -> Seq<Participant> {
        self.participants@
    }
}

/// The tag that the identifier of a champion-select chat room carries.
pub const CHAMP_SELECT_MARKER: &'static str = "champ-select";

/// `marker` stands in `text` at position `at`.
pub open spec fn occurs_at(text: Seq<char>, marker: Seq<char>, at: int) -> bool {
    &&& 0 <= at
    &&& at + marker.len() <= text.len()
    &&& text.subrange(at, at + marker.len()) == marker
}

/// `marker` stands somewhere in `text`.
pub open spec fn contains_text(text: Seq<char>, marker: Seq<char>) -> bool {
    exists|at: int| occurs_at(text, marker, at)
}

/// The participants whose chat identifier carries `marker`.
pub open spec fn tagged(marker: Seq<char>) -> spec_fn(Participant) -> bool {
    |p: Participant| contains_text(p.cid@, marker)
}

/// How many entries of `raw` carry `marker` in their chat identifier.
pub open spec fn tagged_count(raw: Seq<Participant>, marker: Seq<char>) -> nat
    decreases raw.len(),
{
    if raw.len() == 0 {
        0
    } else {
        let rest = tagged_count(raw.drop_last(), marker);
        if tagged(marker)(raw.last()) {
            rest + 1
        } else {
            rest
        }
    }
}

/// The members of the lobby for the reply to a participant request: of a
/// list that arrived, the champion-select participants in the order of the
/// list; of a failed request, nobody.
pub open spec fn lobby_members(fetched: GatewayReply<Lobby>) -> Seq<Participant> {
    match fetched {
        GatewayReply::Parsed(raw) => raw@.filter(tagged(CHAMP_SELECT_MARKER@)),
        _ => Seq::empty(),
    }
}

fn chars_of(text: &str) -> (chars: Vec<char>)
    ensures
        chars@ == text@,
{
    let mut chars: Vec<char> = Vec::new();
    for c in it: text.chars()
        invariant
            it.seq() == text@,
            chars@ == text@.take(it.index() as int),
    {
        chars.push(c);
        assert(chars@ =~= text@.take(it.index() + 1));
    }
    assert(text@.take(text@.len() as int) =~= text@);
    chars
}

fn matches_at(text: &Vec<char>, marker: &Vec<char>, at: usize) -> (found: bool)
    requires
        at + marker.len() <= text.len(),
    ensures
        found == occurs_at(text@, marker@, at as int),
{
    let mut k: usize = 0;
    while k < marker.len()
        invariant
            k <= marker.len(),
            at + marker.len() <= text.len(),
            forall|j: int| 0 <= j < k ==> text@[at + j] == marker@[j],
        decreases marker.len() - k,
    {
        if text[at + k] != marker[k] {
            assert(text@.subrange(at as int, at + marker.len())[k as int] != marker@[k as int]);
            return false;
        }
        k += 1;
    }
    assert(text@.subrange(at as int, at + marker.len()) =~= marker@);
    true
}

/// Tells whether `marker` stands somewhere in `text`.
pub fn contains_marker(text: &str, marker: &str) -> (found: bool)
    ensures
        found == contains_text(text@, marker@),
{
    let hay = chars_of(text);
    let needle = chars_of(marker);
    if needle.len() > hay.len() {
        return false;
    }
    let last: usize = hay.len() - needle.len();
    let mut at: usize = 0;
    loop
        invariant
            hay@ == text@,
            needle@ == marker@,
            at <= last,
            last + needle.len() == hay.len(),
            forall|i: int| 0 <= i < at ==> !occurs_at(text@, marker@, i),
        decreases last - at,
    {
        if matches_at(&hay, &needle, at) {
            return true;
        }
        if at == last {
            return false;
        }
        at += 1;
    }
}

/// Keeps the participants whose chat identifier carries `marker`, in the
/// order in which they came.
pub fn retain_tagged(participants: Vec<Participant>, marker: &str) -> (kept: Vec<Participant>)
    ensures
        kept@ == participants@.filter(tagged(marker@)),
{
    let mut kept: Vec<Participant> = Vec::new();
    for p in it: participants.into_iter()
        invariant
            it.seq() == participants@,
            kept@ == participants@.take(it.index() as int).filter(tagged(marker@)),
    {
        proof {
            lemma_filter_step(participants@, tagged(marker@), it.index() as int);
        }
        if contains_marker(p.cid.as_str(), marker) {
            kept.push(p);
        }
    }
    assert(participants@.take(participants@.len() as int) =~= participants@);
    kept
}

/// Builds the lobby from the reply to a participant request. A failed
/// request is no error here: it gives the empty lobby.
pub fn get_lobby_info(fetched: GatewayReply<Lobby>) -> (lobby: Lobby)
    ensures
        lobby@ == lobby_members(fetched),
{
    match fetched {
        GatewayReply::Parsed(raw) => Lobby {
            participants: retain_tagged(raw.participants, CHAMP_SELECT_MARKER),
        },
        _ => Lobby { participants: Vec::new() },
    }
}

/// Of a list with N tagged entries and M others, filtering keeps exactly the
/// N tagged ones, each once, in the relative order they had in the list. The
/// result names, for every kept entry, the position it came from.
pub proof fn lemma_tagged_kept_in_order(raw: Seq<Participant>, marker: Seq<char>) -> (origin:
    Seq<int>)
    ensures
        raw.filter(tagged(marker)).len() == tagged_count(raw, marker),
        origin.len() == raw.filter(tagged(marker)).len(),
        forall|k: int| 0 <= k < origin.len() ==> 0 <= #[trigger] origin[k] < raw.len(),
        forall|k: int|
            0 <= k < origin.len() ==> raw.filter(tagged(marker))[k] == raw[#[trigger] origin[k]],
        forall|k: int| 0 <= k < origin.len() ==> tagged(marker)(raw[#[trigger] origin[k]]),
        forall|j: int, k: int| 0 <= j < k < origin.len() ==> origin[j] < origin[k],
        forall|i: int| 0 <= i < raw.len() && tagged(marker)(raw[i]) ==> origin.contains(i),
    decreases raw.len(),
{
    reveal(Seq::filter);
    if raw.len() == 0 {
        Seq::empty()
    } else {
        let rest = raw.drop_last();
        let before = lemma_tagged_kept_in_order(rest, marker);
        let last: int = raw.len() - 1;
        if tagged(marker)(raw.last()) {
            let origin = before.push(last);
            assert forall|i: int|
                0 <= i < raw.len() && tagged(marker)(raw[i]) implies origin.contains(i) by {
                if i == last {
                    assert(origin[before.len() as int] == i);
                } else {
                    assert(rest[i] == raw[i]);
                    assert(before.contains(i));
                    let k: int = choose|k: int| 0 <= k < before.len() && before[k] == i;
                    assert(origin[k] == i);
                }
            }
            origin
        } else {
            assert forall|i: int|
                0 <= i < raw.len() && tagged(marker)(raw[i]) implies before.contains(i) by {
                assert(rest[i] == raw[i]);
            }
            before
        }
    }
}

/// Filtering one element more either appends that element or changes nothing.
proof fn lemma_filter_step<A>(s: Seq<A>, pred: spec_fn(A) -> bool, i: int)
    requires
        0 <= i < s.len(),
    ensures
        pred(s[i]) ==> s.take(i + 1).filter(pred) == s.take(i).filter(pred).push(s[i]),
        !pred(s[i]) ==> s.take(i + 1).filter(pred) == s.take(i).filter(pred),
{
    reveal(Seq::filter);
    assert(s.take(i + 1).drop_last() =~= s.take(i));
}

} // verus!
