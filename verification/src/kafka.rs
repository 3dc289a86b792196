use vstd::prelude::*;
use crate::config::{config_map_of, entries_view, lemma_config_map_take_step, ProducerScenario};

verus! {

#[verifier::external_type_specification]
#[verifier::external_body]
pub struct ExClientConfig(rdkafka::ClientConfig);

/// The settings a broker client configuration holds, as a map from setting
/// name to value.
pub uninterp spec fn client_config_entries(c: rdkafka::ClientConfig) -> Map<Seq<char>, Seq<char>>;

/// Whether a client configuration holds no setting at all.
pub open spec fn client_config_is_empty(c: rdkafka::ClientConfig) -> bool {
    client_config_entries(c) == Map::<Seq<char>, Seq<char>>::empty()
}

/// Relies on rdkafka's `ClientConfig::new`: a configuration whose settings
/// map starts empty.
#[verifier::external_body]
fn client_config_new() -> (r: rdkafka::ClientConfig)
    ensures
        client_config_is_empty(r),
{
    rdkafka::ClientConfig::new()
}

/// Relies on rdkafka's `ClientConfig::set`: inserts the key/value pair into
/// the configuration's settings map, overwriting any earlier value for the
/// key.
#[verifier::external_body]
fn client_config_set(c: &mut rdkafka::ClientConfig, key: &String, value: &String)
    ensures
        client_config_entries(*final(c)) == client_config_entries(*old(c)).insert(key@, value@),
{
    c.set(key.as_str(), value.as_str());
}

/// Build a broker client configuration from a settings list: every entry is
/// set in list order, so the entry standing later wins on a repeated key,
/// exactly as `config_map_of` reads the list.
fn map_to_client_config(config_map: &Vec<(String, String)>) -> (r: rdkafka::ClientConfig)
    ensures
        client_config_entries(r) == config_map_of(entries_view(config_map@)),
{
    let ghost ev = entries_view(config_map@);
    let mut config = client_config_new();
    let mut i: usize = 0;
    proof {
        assert(ev.take(0) =~= Seq::empty());
    }
    while i < config_map.len()
        invariant
            i <= config_map@.len(),
            ev == entries_view(config_map@),
            client_config_entries(config) == config_map_of(ev.take(i as int)),
        decreases config_map@.len() - i,
    {
        let entry = &config_map[i];
        proof {
            lemma_config_map_take_step(ev, i as int);
            assert(ev[i as int] == (entry.0@, entry.1@));
        }
        client_config_set(&mut config, &entry.0, &entry.1);
        i = i + 1;
    }
    proof {
        assert(ev.take(config_map@.len() as int) =~= ev);
    }
    config
}

impl ProducerScenario {
    /// The broker client configuration this scenario's merged producer
    /// settings describe, forwarded verbatim: the client's settings map is
    /// exactly the scenario's settings map.
    pub fn client_config(&self) -> (r: rdkafka::ClientConfig)
        ensures
            client_config_entries(r) == config_map_of(entries_view(self.producer_config@)),
    {
        map_to_client_config(&self.producer_config)
    }
}

} // verus!
