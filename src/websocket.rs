//! The registry of websocket subscribers and the choice of who receives an
//! event.
use vstd::prelude::*;

verus! {

/// A text frame for one websocket client.
pub struct StringMessage(pub String);

/// An error reported to a websocket client.
#[derive(Debug)]
pub struct WebsocketError {
    pub error: String,
}

/// Whether the regular expression `pattern` finds a match in `text`; false
/// when `pattern` is not a valid expression.
pub uninterp spec fn regex_finds(pattern: Seq<char>, text: Seq<char>) -> bool;

/// Relies on `regex::Regex::new` and `regex::Regex::is_match`: compiling
/// `pattern` either fails or gives an expression whose `is_match` on `text`
/// depends on the two strings alone.
#[verifier::external_body]
fn pattern_finds(pattern: &str, text: &str) -> (r: bool)
    ensures
        r == regex_finds(pattern@, text@),
{
    regex::Regex::new(pattern).map_or(false, |re| re.is_match(text))
}

/// One subscriber: its outbound sink, its filter expression (none: it takes
/// nothing), and the device it listens to (none: every device).
pub struct WebsocketActorContent<A> {
    pub actor: A,
    pub re: Option<String>,
    pub device_number: Option<u128>,
}

/// The subscribers, in the order they joined.
pub struct WebsocketManager<A> {
    pub clients: Vec<WebsocketActorContent<A>>,
}

/// The subscriber takes an event with id `event_id` whose text is `text`: its
/// device filter is absent or equal to the event's id, and its expression
/// finds a match in the text.
pub open spec fn spec_delivers<A>(
    c: WebsocketActorContent<A>,
    text: Seq<char>,
    event_id: Option<u128>,
) -> bool {
    &&& (c.device_number is None || c.device_number == event_id)
    &&& (c.re matches Some(p) && regex_finds(p@, text))
}

impl<A> WebsocketActorContent<A> {
    /// Whether this subscriber takes the event.
    pub fn accepts(&self, text: &str, event_id: Option<u128>) -> (r: bool)
        ensures
            r == spec_delivers(*self, text@, event_id),
    {
        let device_ok = match self.device_number {
            None => true,
            Some(d) => match event_id {
                Some(e) => d == e,
                None => false,
            },
        };
        if !device_ok {
            return false;
        }
        match &self.re {
            Some(pattern) => pattern_finds(pattern.as_str(), text),
            None => false,
        }
    }
}

impl<A> WebsocketManager<A> {
    /// A registry with no subscribers.
    pub fn new() -> (r: WebsocketManager<A>)
        ensures
            r.clients@.len() == 0,
    {
        WebsocketManager { clients: Vec::new() }
    }

    /// Adds a subscriber after the others.
    pub fn subscribe(&mut self, client: WebsocketActorContent<A>)
        ensures
            final(self).clients@ == old(self).clients@.push(client),
    {
        self.clients.push(client);
    }

    /// The subscribers that receive an event with id `event_id` whose text is
    /// `text`, by position, in increasing order: exactly those that accept it.
    pub fn send(&self, text: &str, event_id: Option<u128>) -> (r: Vec<usize>)
        ensures
            forall|k: int|
                0 <= k < r@.len() ==> r@[k] < self.clients@.len() && spec_delivers(
                    self.clients@[r@[k] as int],
                    text@,
                    event_id,
                ),
            forall|i: int|
                0 <= i < self.clients@.len() && spec_delivers(
                    #[trigger] self.clients@[i],
                    text@,
                    event_id,
                ) ==> r@.contains(i as usize),
            forall|k1: int, k2: int| 0 <= k1 < k2 < r@.len() ==> r@[k1] < r@[k2],
    {
        let mut r: Vec<usize> = Vec::new();
        if self.clients.len() == 0 {
            return r;
        }
        let mut i: usize = 0;
        while i < self.clients.len()
            invariant
                i <= self.clients@.len(),
                forall|k: int|
                    0 <= k < r@.len() ==> r@[k] < i && spec_delivers(
                        self.clients@[r@[k] as int],
                        text@,
                        event_id,
                    ),
                forall|j: int|
                    0 <= j < i && spec_delivers(#[trigger] self.clients@[j], text@, event_id)
                        ==> r@.contains(j as usize),
                forall|k1: int, k2: int| 0 <= k1 < k2 < r@.len() ==> r@[k1] < r@[k2],
            decreases self.clients@.len() - i,
        {
            let ghost before = r@;
            if self.clients[i].accepts(text, event_id) {
                r.push(i);
                assert(r@[r@.len() - 1] == i);
                assert forall|x: usize| before.contains(x) implies r@.contains(x) by {
                    let k = choose|k: int| 0 <= k < before.len() && before[k] == x;
                    assert(r@[k] == x);
                }
            }
            i = i + 1;
        }
        r
    }
}

/// Every subscriber that `send` picks passes both filters: its device filter
/// is absent or names the event's device, and its expression matches the
/// event's text.
pub proof fn lemma_delivered_pass_filters<A>(
    clients: Seq<WebsocketActorContent<A>>,
    text: Seq<char>,
    event_id: Option<u128>,
    picked: Seq<usize>,
    k: int,
)
    requires
        forall|j: int|
            0 <= j < picked.len() ==> picked[j] < clients.len() && spec_delivers(
                clients[picked[j] as int],
                text,
                event_id,
            ),
        0 <= k < picked.len(),
    ensures
        ({
            let c = clients[picked[k] as int];
            &&& c.device_number is None || c.device_number == event_id
            &&& c.re is Some && regex_finds(c.re->0@, text)
        }),
{
}

} // verus!
