//! Webhook routing: which registered endpoints receive an event, the key
//! that makes every event delivered at most once, and the HMAC signature
//! check of incoming deliveries.
use vstd::prelude::*;
use vstd::hash_map::StringHashMap;
use vstd::string::StringExecFns;
use std::collections::HashMap;
use crate::codec::{decimal, hex_encode, hex_lower, u64_decimal};
use hmac::Mac;

verus! {

broadcast use vstd::std_specs::hash::group_hash_axioms;

/// An endpoint registered for a campaign's events; an empty `events` list
/// subscribes to every event.
#[derive(Debug)]
pub struct WebhookConfig {
    pub url: String,
    pub secret: Option<String>,
    pub events: Vec<String>,
}

/// A donation event to deliver.
#[derive(Debug)]
pub struct WebhookPayload {
    pub event: String,
    pub campaign_id: u64,
    pub donor: String,
    pub amount: String,
    pub tx_hash: String,
    pub timestamp: u64,
    pub idempotency_key: Option<String>,
}

/// The key under which a delivered payload is remembered: its idempotency
/// key if it has one, else its event, campaign, transaction and amount.
pub open spec fn dedup_key_of(p: WebhookPayload) -> Seq<char> {
    match p.idempotency_key {
        Some(k) => "idem:"@ + k@,
        None => "evt:"@ + p.event@ + ":"@ + decimal(p.campaign_id as nat) + ":"@ + p.tx_hash@
            + ":"@ + p.amount@,
    }
}

/// Whether `config` subscribes to `event`.
pub open spec fn subscribes(config: WebhookConfig, event: Seq<char>) -> bool {
    config.events@.len() == 0 || exists|i: int|
        0 <= i < config.events@.len() && (#[trigger] config.events@[i])@ == event
}

/// `Hmac::<Sha256>`: the HMAC-SHA256 tag of `message` under `key`.
pub uninterp spec fn hmac_sha256(key: Seq<u8>, message: Seq<u8>) -> Seq<u8>;

/// `Hmac::<Sha256>::new_from_slice`, `update` and `finalize`: the
/// HMAC-SHA256 tag of `message` under `key`. The crate accepts keys of every
/// length (longer ones are hashed first), so the tag is always produced.
#[verifier::external_body]
fn hmac_sha256_tag(key: &[u8], message: &[u8]) -> (r: Option<Vec<u8>>)
    ensures
        r.is_some(),
        r.unwrap()@ == hmac_sha256(key@, message@),
{
    let mut mac = match hmac::Hmac::<sha2::Sha256>::new_from_slice(key) {
        Ok(m) => m,
        Err(_) => return None,
    };
    mac.update(message);
    Some(mac.finalize().into_bytes().to_vec())
}

/// Whether `signature` is the lowercase hex text of `tag`.
pub fn signature_matches(tag: &[u8], signature: &str) -> (b: bool)
    ensures
        b == (hex_lower(tag@) == signature@),
{
    hex_encode(tag) == signature.to_owned()
}

/// Whether `signature` is the lowercase hex HMAC-SHA256 of `body` under
/// `secret`.
pub fn verify_signature(secret: &[u8], body: &[u8], signature: &str) -> (b: bool)
    ensures
        b == (hex_lower(hmac_sha256(secret@, body@)) == signature@),
{
    match hmac_sha256_tag(secret, body) {
        Some(tag) => signature_matches(&tag, signature),
        None => false,
    }
}

/// The key under which `payload` is remembered once delivered.
pub fn dedup_key(payload: &WebhookPayload) -> (k: String)
    ensures
        k@ == dedup_key_of(*payload),
{
    match &payload.idempotency_key {
        Some(key) => {
            let mut k = "idem:".to_owned();
            k.append(key.as_str());
            k
        },
        None => {
            let mut k = "evt:".to_owned();
            k.append(payload.event.as_str());
            k.append(":");
            let id = u64_decimal(payload.campaign_id);
            k.append(id.as_str());
            k.append(":");
            k.append(payload.tx_hash.as_str());
            k.append(":");
            k.append(payload.amount.as_str());
            k
        },
    }
}

/// Whether `config` subscribes to `event`.
pub fn wants_event(config: &WebhookConfig, event: &String) -> (b: bool)
    ensures
        b == subscribes(*config, event@),
{
    if config.events.len() == 0 {
        return true;
    }
    let mut i: usize = 0;
    while i < config.events.len()
        invariant
            i <= config.events.len(),
            forall|j: int| 0 <= j < i ==> (#[trigger] config.events@[j])@ != event@,
        decreases config.events.len() - i,
    {
        if config.events[i] == *event {
            return true;
        }
        i = i + 1;
    }
    false
}

/// The endpoints registered per campaign and the keys of the payloads
/// already delivered.
pub struct WebhookRegistry {
    endpoints: HashMap<u64, Vec<WebhookConfig>>,
    delivered: StringHashMap<bool>,
}

impl WebhookRegistry {
    /// The endpoints of each campaign, in registration order.
    pub closed spec fn endpoints(&self) -> Map<u64, Seq<WebhookConfig>> {
        self.endpoints@.map_values(|v: Vec<WebhookConfig>| v@)
    }

    /// The keys of the payloads already delivered.
    pub closed spec fn delivered(&self) -> Set<Seq<char>> {
        self.delivered@.dom()
    }

    /// The endpoints registered for `campaign_id`.
    pub open spec fn endpoints_of(&self, campaign_id: u64) -> Seq<WebhookConfig> {
        if self.endpoints().contains_key(campaign_id) {
            self.endpoints()[campaign_id]
        } else {
            Seq::empty()
        }
    }

    /// A registry with no endpoint and nothing delivered.
    pub fn new() -> (r: WebhookRegistry)
        ensures
            r.endpoints() == Map::<u64, Seq<WebhookConfig>>::empty(),
            r.delivered() == Set::<Seq<char>>::empty(),
    {
        let r = WebhookRegistry { endpoints: HashMap::new(), delivered: StringHashMap::new() };
        assert(r.endpoints() =~= Map::<u64, Seq<WebhookConfig>>::empty());
        r
    }

    /// Adds an endpoint after the ones already registered for `campaign_id`.
    pub fn register(&mut self, campaign_id: u64, config: WebhookConfig)
        ensures
            final(self).endpoints() == old(self).endpoints().insert(
                campaign_id,
                old(self).endpoints_of(campaign_id).push(config),
            ),
            final(self).delivered() == old(self).delivered(),
    {
        let mut list = match self.endpoints.remove(&campaign_id) {
            Some(l) => l,
            None => Vec::new(),
        };
        let ghost before = list@;
        list.push(config);
        self.endpoints.insert(campaign_id, list);
        assert(self.endpoints() =~= old(self).endpoints().insert(
            campaign_id,
            old(self).endpoints_of(campaign_id).push(config),
        ));
    }

    /// The endpoints registered for `campaign_id`, in registration order.
    pub fn registered(&self, campaign_id: u64) -> (r: Option<&Vec<WebhookConfig>>)
        ensures
            r matches Some(v) ==> v@ == self.endpoints_of(campaign_id),
            r is None ==> self.endpoints_of(campaign_id).len() == 0,
    {
        self.endpoints.get(&campaign_id)
    }

    /// Whether a payload with key `key` was already delivered.
    pub fn was_delivered(&self, key: &str) -> (b: bool)
        ensures
            b == self.delivered().contains(key@),
    {
        self.delivered.contains_key(key)
    }

    /// Remembers that the payload with key `key` was delivered.
    pub fn mark_delivered(&mut self, key: String)
        ensures
            final(self).delivered() == old(self).delivered().insert(key@),
            final(self).endpoints() == old(self).endpoints(),
    {
        self.delivered.insert(key, true);
        assert(self.delivered@.dom() =~= old(self).delivered@.dom().insert(key@));
    }

    /// The positions, among the endpoints of `campaign_id`, of those that
    /// must receive `payload`: none if it was already delivered, else every
    /// endpoint subscribed to its event, in registration order.
    pub fn dispatch_targets(&self, campaign_id: u64, payload: &WebhookPayload) -> (r: Vec<usize>)
        ensures
            self.delivered().contains(dedup_key_of(*payload)) ==> r@.len() == 0,
            !self.delivered().contains(dedup_key_of(*payload)) ==> {
                &&& forall|k: int| 0 <= k < r@.len() ==> (#[trigger] r@[k]) < self.endpoints_of(campaign_id).len()
                &&& forall|k: int, l: int| 0 <= k < l < r@.len() ==> r@[k] < r@[l]
                &&& forall|i: int|
                    0 <= i < self.endpoints_of(campaign_id).len() ==> (r@.contains(i as usize)
                        <==> subscribes(self.endpoints_of(campaign_id)[i], payload.event@))
            },
    {
        let mut r: Vec<usize> = Vec::new();
        let key = dedup_key(payload);
        if self.delivered.contains_key(key.as_str()) {
            return r;
        }
        let configs = match self.endpoints.get(&campaign_id) {
            Some(l) => l,
            None => {
                return r;
            },
        };
        assert(configs@ == self.endpoints_of(campaign_id));
        let mut i: usize = 0;
        while i < configs.len()
            invariant
                i <= configs.len(),
                configs@ == self.endpoints_of(campaign_id),
                forall|k: int| 0 <= k < r@.len() ==> (#[trigger] r@[k]) < i,
                forall|k: int, l: int| 0 <= k < l < r@.len() ==> r@[k] < r@[l],
                forall|j: int|
                    0 <= j < i ==> (r@.contains(j as usize) <==> subscribes(
                        configs@[j],
                        payload.event@,
                    )),
            decreases configs.len() - i,
        {
            let ghost before = r@;
            if wants_event(&configs[i], &payload.event) {
                r.push(i);
                assert(r@[r@.len() - 1] == i);
            }
            assert forall|j: int| 0 <= j < i + 1 implies (r@.contains(j as usize) <==> subscribes(
                configs@[j],
                payload.event@,
            )) by {
                if j < i {
                    if before.contains(j as usize) {
                        let k = choose|k: int| 0 <= k < before.len() && before[k] == j as usize;
                        assert(r@[k] == j as usize);
                    }
                    if r@.contains(j as usize) {
                        let k = choose|k: int| 0 <= k < r@.len() && r@[k] == j as usize;
                        if k < before.len() {
                            assert(before[k] == j as usize);
                        }
                    }
                } else {
                    if r@.contains(j as usize) {
                        let k = choose|k: int| 0 <= k < r@.len() && r@[k] == j as usize;
                        if k < before.len() {
                            assert(before[k] < i);
                        }
                    }
                }
            }
            i = i + 1;
        }
        r
    }

    /// Starts the delivery of `payload` to the endpoints of `campaign_id`:
    /// the positions of the endpoints to send it to, as
    /// [`Self::dispatch_targets`] gives them, and its key remembered so that
    /// it is never sent again. A payload already delivered leaves the
    /// registry as it is.
    pub fn dispatch(&mut self, campaign_id: u64, payload: &WebhookPayload) -> (r: Vec<usize>)
        ensures
            old(self).delivered().contains(dedup_key_of(*payload)) ==> r@.len() == 0
                && final(self).delivered() == old(self).delivered(),
            final(self).delivered() == old(self).delivered().insert(dedup_key_of(*payload)),
            final(self).endpoints() == old(self).endpoints(),
            !old(self).delivered().contains(dedup_key_of(*payload)) ==> {
                &&& forall|k: int|
                    0 <= k < r@.len() ==> (#[trigger] r@[k]) < old(self).endpoints_of(campaign_id).len()
                &&& forall|k: int, l: int| 0 <= k < l < r@.len() ==> r@[k] < r@[l]
                &&& forall|i: int|
                    0 <= i < old(self).endpoints_of(campaign_id).len() ==> (r@.contains(i as usize)
                        <==> subscribes(old(self).endpoints_of(campaign_id)[i], payload.event@))
            },
    {
        let targets = self.dispatch_targets(campaign_id, payload);
        let key = dedup_key(payload);
        if !self.delivered.contains_key(key.as_str()) {
            self.mark_delivered(key);
        } else {
            assert(self.delivered().insert(key@) =~= self.delivered());
        }
        targets
    }
}

/// Which endpoints receive an event: one with no event list receives every
/// event; one with a list receives exactly the events listed in it, at
/// whatever position.
pub proof fn lemma_subscription_by_listing(config: WebhookConfig, event: Seq<char>, i: int)
    ensures
        config.events@.len() == 0 ==> subscribes(config, event),
        0 <= i < config.events@.len() && config.events@[i]@ == event ==> subscribes(config, event),
        config.events@.len() > 0 && subscribes(config, event) ==> exists|j: int|
            0 <= j < config.events@.len() && (#[trigger] config.events@[j])@ == event,
{
}

} // verus!
