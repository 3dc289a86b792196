use vstd::prelude::*;

verus! {

/// The kind of producer client that drives a scenario. A single variant for
/// now; the enum leaves room for other send modes.
#[derive(Debug, Clone, Copy, PartialEq, Eq, Structural)]
pub enum ProducerType {
    BaseProducer,
}

/// The configuration fields a scenario must end up with after merging; a
/// missing-parameter error names one of these.
#[derive(Debug, Clone, Copy, PartialEq, Eq, Structural)]
pub enum ScenarioField {
    RepeatTimes,
    RepeatPause,
    Threads,
    ProducerType,
    MessageSize,
    MessageCount,
    MessageFile,
    Topic,
}

/// Why a benchmark configuration was rejected.
#[derive(Debug, Clone, Copy, PartialEq, Eq, Structural)]
pub enum ConfigError {
    /// A required field is present in neither the named scenario nor the
    /// default block.
    MissingParameter(ScenarioField),
    /// The merged producer settings map has no entry at all.
    EmptyProducerConfig,
    /// The merged thread count is zero; a scenario needs at least one
    /// concurrent worker.
    ZeroThreads,
}

/// One scenario block as it stands in the configuration file: every field
/// optional, to be overlaid on the default block. Producer settings are kept
/// as a list of key/value entries in file order.
pub struct ScenarioFileConfig {
    pub repeat_times: Option<u64>,
    pub repeat_pause: Option<u64>,
    pub threads: Option<u64>,
    pub producer_type: Option<ProducerType>,
    pub message_size: Option<u64>,
    pub message_count: Option<u64>,
    pub message_file: Option<String>,
    pub topic: Option<String>,
    pub producer_config: Option<Vec<(String, String)>>,
}

/// The whole configuration file: one default block and the named scenario
/// blocks.
pub struct BenchmarkFileConfig {
    pub default: ScenarioFileConfig,
    pub scenarios: Vec<(String, ScenarioFileConfig)>,
}

/// A fully merged, execution-ready scenario. Only `from_file_config`
/// constructs one, so `producer_config` is never empty.
#[derive(Debug)]
pub struct ProducerScenario {
    /// Burst iterations per worker thread.
    pub repeat_times: u64,
    /// Pause between bursts, in milliseconds.
    pub repeat_pause: u64,
    /// Concurrent worker count.
    pub threads: u64,
    pub producer_type: ProducerType,
    /// Payload size in bytes when synthetic generation is used; file-backed
    /// content wins whenever the cache at `message_file` is usable.
    pub message_size: u64,
    /// Messages sent per burst per worker.
    pub message_count: u64,
    /// Path of a cache of pre-encoded payload lines.
    pub message_file: String,
    /// Target topic name.
    pub topic: String,
    /// Merged producer settings, default entries first, then the override's;
    /// on lookup the later entry for a key wins (see `config_map_of`).
    pub producer_config: Vec<(String, String)>,
}

/// A validated benchmark: every named scenario resolved against the default
/// block.
#[derive(Debug)]
pub struct ProducerBenchmark {
    pub scenarios: Vec<(String, ProducerScenario)>,
}

/// The key/value entries of a settings list, as sequences of characters.
pub open spec fn entries_view(s: Seq<(String, String)>) -> Seq<(Seq<char>, Seq<char>)> {
    s.map(|i: int, p: (String, String)| (p.0@, p.1@))
}

/// The map described by a list of key/value entries: a later entry for the
/// same key overwrites an earlier one.
pub open spec fn config_map_of(s: Seq<(Seq<char>, Seq<char>)>) -> Map<Seq<char>, Seq<char>>
    decreases s.len(),
{
    if s.len() == 0 {
        Map::empty()
    } else {
        config_map_of(s.drop_last()).insert(s.last().0, s.last().1)
    }
}

/// The entries of an optional settings list; absent means no entries.
pub open spec fn opt_entries(c: Option<Vec<(String, String)>>) -> Seq<(String, String)> {
    match c {
        Some(v) => v@,
        None => Seq::empty(),
    }
}

/// The merged producer settings of a default and an override block: the
/// default's entries followed by the override's, so the override wins on any
/// key both set.
pub open spec fn merged_entries(
    default: ScenarioFileConfig,
    scenario: ScenarioFileConfig,
) -> Seq<(String, String)> {
    opt_entries(default.producer_config) + opt_entries(scenario.producer_config)
}

/// Whether a field is available from at least one of the two blocks.
pub open spec fn present<T>(first: Option<T>, second: Option<T>) -> bool {
    first is Some || second is Some
}

/// The value a field resolves to: the first option if set, else the second.
pub open spec fn resolved<T>(first: Option<T>, second: Option<T>) -> T
    recommends
        present(first, second),
{
    if first is Some {
        first->0
    } else {
        second->0
    }
}

/// Overlay choice for one field: the first value if present, else the second;
/// absent from both is a missing-parameter error naming the field.
pub fn or_expect<T>(first: Option<T>, second: Option<T>, name: ScenarioField) -> (r: Result<
    T,
    ConfigError,
>)
    ensures
        present(first, second) ==> r == Ok::<T, ConfigError>(resolved(first, second)),
        !present(first, second) ==> r == Err::<T, ConfigError>(
            ConfigError::MissingParameter(name),
        ),
{
    match first {
        Some(v) => Ok(v),
        None => match second {
            Some(v) => Ok(v),
            None => Err(ConfigError::MissingParameter(name)),
        },
    }
}

/// A copy of an optional string field, so the default block can serve several
/// scenario resolutions.
fn clone_opt_string(o: &Option<String>) -> (r: Option<String>)
    ensures
        r == *o,
{
    match o {
        Some(s) => Some(s.clone()),
        None => None,
    }
}

/// A copy of a settings list, entry by entry.
fn clone_entries(v: &Vec<(String, String)>) -> (r: Vec<(String, String)>)
    ensures
        r@ == v@,
{
    let mut out: Vec<(String, String)> = Vec::new();
    let mut i: usize = 0;
    while i < v.len()
        invariant
            i <= v@.len(),
            out@ == v@.take(i as int),
        decreases v@.len() - i,
    {
        let entry = &v[i];
        out.push((entry.0.clone(), entry.1.clone()));
        proof {
            assert(v@.take(i + 1).drop_last() =~= v@.take(i as int));
            assert(out@ =~= v@.take(i + 1));
        }
        i = i + 1;
    }
    proof {
        assert(v@.take(v@.len() as int) =~= v@);
    }
    out
}

/// The merged settings list of a default and an override block: the default's
/// entries, then the override's.
fn merge_producer_config(
    default: &Option<Vec<(String, String)>>,
    scenario: Option<Vec<(String, String)>>,
) -> (r: Vec<(String, String)>)
    ensures
        r@ == opt_entries(*default) + opt_entries(scenario),
{
    let mut merged = match default {
        Some(v) => clone_entries(v),
        None => Vec::new(),
    };
    match scenario {
        Some(mut o) => {
            merged.append(&mut o);
        },
        None => {
            proof {
                assert(merged@ =~= merged@ + opt_entries(None));
            }
        },
    }
    merged
}

/// Whether a scenario block can be resolved against a default block: the
/// merged settings list is non-empty, every required field is available from
/// one of the two, and the merged worker count is at least one.
pub open spec fn resolvable(default: ScenarioFileConfig, scenario: ScenarioFileConfig) -> bool {
    &&& merged_entries(default, scenario).len() > 0
    &&& present(scenario.repeat_times, default.repeat_times)
    &&& present(scenario.repeat_pause, default.repeat_pause)
    &&& present(scenario.threads, default.threads)
    &&& present(scenario.producer_type, default.producer_type)
    &&& present(scenario.message_size, default.message_size)
    &&& present(scenario.message_count, default.message_count)
    &&& present(scenario.message_file, default.message_file)
    &&& present(scenario.topic, default.topic)
    &&& resolved(scenario.threads, default.threads) >= 1
}

/// What resolving a scenario block against a default block yields: each field
/// is the override's value if set, else the default's, the settings list is
/// the merge of the two, and the worker count is at least one.
pub open spec fn resolves_to(
    default: ScenarioFileConfig,
    scenario: ScenarioFileConfig,
    r: ProducerScenario,
) -> bool {
    &&& r.threads >= 1
    &&& r.repeat_times == resolved(scenario.repeat_times, default.repeat_times)
    &&& r.repeat_pause == resolved(scenario.repeat_pause, default.repeat_pause)
    &&& r.threads == resolved(scenario.threads, default.threads)
    &&& r.producer_type == resolved(scenario.producer_type, default.producer_type)
    &&& r.message_size == resolved(scenario.message_size, default.message_size)
    &&& r.message_count == resolved(scenario.message_count, default.message_count)
    &&& r.message_file == resolved(scenario.message_file, default.message_file)
    &&& r.topic == resolved(scenario.topic, default.topic)
    &&& r.producer_config@ == merged_entries(default, scenario)
}

/// The error resolution reports: an empty merged settings list first, then
/// the first missing field in declaration order, then a zero worker count.
pub open spec fn spec_resolve_error(
    default: ScenarioFileConfig,
    scenario: ScenarioFileConfig,
) -> ConfigError {
    if merged_entries(default, scenario).len() == 0 {
        ConfigError::EmptyProducerConfig
    } else if !present(scenario.repeat_times, default.repeat_times) {
        ConfigError::MissingParameter(ScenarioField::RepeatTimes)
    } else if !present(scenario.repeat_pause, default.repeat_pause) {
        ConfigError::MissingParameter(ScenarioField::RepeatPause)
    } else if !present(scenario.threads, default.threads) {
        ConfigError::MissingParameter(ScenarioField::Threads)
    } else if !present(scenario.producer_type, default.producer_type) {
        ConfigError::MissingParameter(ScenarioField::ProducerType)
    } else if !present(scenario.message_size, default.message_size) {
        ConfigError::MissingParameter(ScenarioField::MessageSize)
    } else if !present(scenario.message_count, default.message_count) {
        ConfigError::MissingParameter(ScenarioField::MessageCount)
    } else if !present(scenario.message_file, default.message_file) {
        ConfigError::MissingParameter(ScenarioField::MessageFile)
    } else if !present(scenario.topic, default.topic) {
        ConfigError::MissingParameter(ScenarioField::Topic)
    } else {
        ConfigError::ZeroThreads
    }
}

pub(crate) proof fn lemma_config_map_take_step(s: Seq<(Seq<char>, Seq<char>)>, i: int)
    requires
        0 <= i < s.len(),
    ensures
        config_map_of(s.take(i + 1)) == config_map_of(s.take(i)).insert(s[i].0, s[i].1),
{
    assert(s.take(i + 1).drop_last() =~= s.take(i));
    assert(s.take(i + 1).last() == s[i]);
}

/// Law: the map of a concatenated settings list is the union of the two
/// parts' maps, the second part winning on a key both hold.
pub proof fn lemma_config_map_append(d: Seq<(Seq<char>, Seq<char>)>, o: Seq<(Seq<char>, Seq<char>)>)
    ensures
        forall|k: Seq<char>|
            #[trigger] config_map_of(d + o).contains_key(k) <==> (config_map_of(d).contains_key(k)
                || config_map_of(o).contains_key(k)),
        forall|k: Seq<char>|
            config_map_of(o).contains_key(k) ==> #[trigger] config_map_of(d + o)[k]
                == config_map_of(o)[k],
        forall|k: Seq<char>|
            !config_map_of(o).contains_key(k) && config_map_of(d).contains_key(k)
                ==> #[trigger] config_map_of(d + o)[k] == config_map_of(d)[k],
    decreases o.len(),
{
    if o.len() == 0 {
        assert(d + o =~= d);
    } else {
        let o2 = o.drop_last();
        let lk = o.last().0;
        let lv = o.last().1;
        lemma_config_map_append(d, o2);
        assert((d + o).drop_last() =~= d + o2);
        assert((d + o).last() == o.last());
        assert(config_map_of(d + o) == config_map_of(d + o2).insert(lk, lv));
        assert(config_map_of(o) == config_map_of(o2).insert(lk, lv));
        assert forall|k: Seq<char>|
            #[trigger] config_map_of(d + o).contains_key(k) <==> (config_map_of(
                d,
            ).contains_key(k) || config_map_of(o).contains_key(k)) by {
            if k != lk {
                assert(config_map_of(d + o).contains_key(k) == config_map_of(
                    d + o2,
                ).contains_key(k));
                assert(config_map_of(o).contains_key(k) == config_map_of(o2).contains_key(k));
            }
        }
        assert forall|k: Seq<char>| config_map_of(o).contains_key(k) implies #[trigger] config_map_of(
            d + o,
        )[k] == config_map_of(o)[k] by {
            if k != lk {
                assert(config_map_of(d + o)[k] == config_map_of(d + o2)[k]);
                assert(config_map_of(o)[k] == config_map_of(o2)[k]);
                assert(config_map_of(o2).contains_key(k));
            }
        }
        assert forall|k: Seq<char>|
            !config_map_of(o).contains_key(k) && config_map_of(d).contains_key(
                k,
            ) implies #[trigger] config_map_of(d + o)[k] == config_map_of(d)[k] by {
            assert(k != lk);
            assert(!config_map_of(o2).contains_key(k));
            assert(config_map_of(d + o)[k] == config_map_of(d + o2)[k]);
        }
    }
}

/// Law: a settings list describes the empty map exactly when it has no
/// entries, so the empty-settings check on the merged list is a check on the
/// merged map.
pub proof fn lemma_config_map_empty(s: Seq<(Seq<char>, Seq<char>)>)
    ensures
        s.len() == 0 <==> config_map_of(s) == Map::<Seq<char>, Seq<char>>::empty(),
{
    if s.len() == 0 {
    } else {
        assert(config_map_of(s).contains_key(s.last().0));
        assert(!Map::<Seq<char>, Seq<char>>::empty().contains_key(s.last().0));
        assert(config_map_of(s) != Map::<Seq<char>, Seq<char>>::empty());
    }
}

impl ProducerScenario {
    /// A scenario is well formed when its merged settings list has at least
    /// one entry.
    pub open spec fn wf(self) -> bool {
        self.producer_config@.len() > 0
    }

    /// Resolve one scenario block against the default block: field by field
    /// the override wins where set, the settings lists are merged with the
    /// override winning on shared keys, and a missing field, an empty merged
    /// settings list or a zero worker count rejects the scenario.
    pub fn from_file_config(default: &ScenarioFileConfig, scenario: ScenarioFileConfig) -> (r:
        Result<ProducerScenario, ConfigError>)
        ensures
            r is Ok <==> resolvable(*default, scenario),
            r matches Ok(s) ==> resolves_to(*default, scenario, s) && s.wf(),
            r matches Err(e) ==> e == spec_resolve_error(*default, scenario),
    {
        let producer_config = merge_producer_config(
            &default.producer_config,
            scenario.producer_config,
        );
        if producer_config.len() == 0 {
            return Err(ConfigError::EmptyProducerConfig);
        }
        let repeat_times = match or_expect(
            scenario.repeat_times,
            default.repeat_times,
            ScenarioField::RepeatTimes,
        ) {
            Ok(v) => v,
            Err(e) => return Err(e),
        };
        let repeat_pause = match or_expect(
            scenario.repeat_pause,
            default.repeat_pause,
            ScenarioField::RepeatPause,
        ) {
            Ok(v) => v,
            Err(e) => return Err(e),
        };
        let threads = match or_expect(scenario.threads, default.threads, ScenarioField::Threads) {
            Ok(v) => v,
            Err(e) => return Err(e),
        };
        let producer_type = match or_expect(
            scenario.producer_type,
            default.producer_type,
            ScenarioField::ProducerType,
        ) {
            Ok(v) => v,
            Err(e) => return Err(e),
        };
        let message_size = match or_expect(
            scenario.message_size,
            default.message_size,
            ScenarioField::MessageSize,
        ) {
            Ok(v) => v,
            Err(e) => return Err(e),
        };
        let message_count = match or_expect(
            scenario.message_count,
            default.message_count,
            ScenarioField::MessageCount,
        ) {
            Ok(v) => v,
            Err(e) => return Err(e),
        };
        let message_file = match or_expect(
            scenario.message_file,
            clone_opt_string(&default.message_file),
            ScenarioField::MessageFile,
        ) {
            Ok(v) => v,
            Err(e) => return Err(e),
        };
        let topic = match or_expect(
            scenario.topic,
            clone_opt_string(&default.topic),
            ScenarioField::Topic,
        ) {
            Ok(v) => v,
            Err(e) => return Err(e),
        };
        if threads == 0 {
            return Err(ConfigError::ZeroThreads);
        }
        Ok(
            ProducerScenario {
                repeat_times,
                repeat_pause,
                threads,
                producer_type,
                message_size,
                message_count,
                message_file,
                topic,
                producer_config,
            },
        )
    }

    /// The merged producer setting for `key`: the entry standing latest in
    /// the merged list wins, which is the override's value on a key both
    /// blocks set.
    pub fn config_get(&self, key: &String) -> (r: Option<&String>)
        ensures
            match r {
                Some(v) => config_map_of(entries_view(self.producer_config@)).contains_key(key@)
                    && v@ == config_map_of(entries_view(self.producer_config@))[key@],
                None => !config_map_of(entries_view(self.producer_config@)).contains_key(key@),
            },
    {
        let ghost ev = entries_view(self.producer_config@);
        let mut found: Option<usize> = None;
        let mut i: usize = 0;
        proof {
            assert(ev.take(0) =~= Seq::empty());
        }
        while i < self.producer_config.len()
            invariant
                i <= self.producer_config@.len(),
                ev == entries_view(self.producer_config@),
                match found {
                    Some(k) => k < i && config_map_of(ev.take(i as int)).contains_key(key@)
                        && config_map_of(ev.take(i as int))[key@] == ev[k as int].1,
                    None => !config_map_of(ev.take(i as int)).contains_key(key@),
                },
            decreases self.producer_config@.len() - i,
        {
            let entry = &self.producer_config[i];
            proof {
                lemma_config_map_take_step(ev, i as int);
                assert(ev[i as int] == (entry.0@, entry.1@));
            }
            if entry.0 == *key {
                found = Some(i);
            }
            i = i + 1;
        }
        proof {
            assert(ev.take(self.producer_config@.len() as int) =~= ev);
        }
        match found {
            Some(k) => Some(&self.producer_config[k].1),
            None => None,
        }
    }
}

/// Law: the producer settings map of a resolved scenario is the union of the
/// default block's and the override block's maps, the override winning on any
/// key both set.
pub proof fn lemma_resolved_config_union(
    default: ScenarioFileConfig,
    scenario: ScenarioFileConfig,
    r: ProducerScenario,
)
    requires
        resolves_to(default, scenario, r),
    ensures
        forall|k: Seq<char>|
            #[trigger] config_map_of(entries_view(r.producer_config@)).contains_key(k) <==> (
            config_map_of(entries_view(opt_entries(default.producer_config))).contains_key(k)
                || config_map_of(entries_view(opt_entries(scenario.producer_config))).contains_key(
                k,
            )),
        forall|k: Seq<char>|
            config_map_of(entries_view(opt_entries(scenario.producer_config))).contains_key(k)
                ==> #[trigger] config_map_of(entries_view(r.producer_config@))[k] == config_map_of(
                entries_view(opt_entries(scenario.producer_config)),
            )[k],
        forall|k: Seq<char>|
            !config_map_of(entries_view(opt_entries(scenario.producer_config))).contains_key(k)
                && config_map_of(entries_view(opt_entries(default.producer_config))).contains_key(k)
                ==> #[trigger] config_map_of(entries_view(r.producer_config@))[k] == config_map_of(
                entries_view(opt_entries(default.producer_config)),
            )[k],
{
    let d = entries_view(opt_entries(default.producer_config));
    let o = entries_view(opt_entries(scenario.producer_config));
    assert(entries_view(r.producer_config@) =~= d + o);
    lemma_config_map_append(d, o);
}

/// Whether the named blocks carry pairwise distinct names, as the entries of
/// a mapping do.
pub open spec fn distinct_names(s: Seq<(String, ScenarioFileConfig)>) -> bool {
    forall|i: int, j: int| 0 <= i < j < s.len() ==> (#[trigger] s[i]).0@ != (#[trigger] s[j]).0@
}

impl ProducerBenchmark {
    /// A benchmark is well formed when its scenario names are pairwise
    /// distinct: it is a mapping from name to scenario.
    pub open spec fn wf(self) -> bool {
        forall|i: int, j: int|
            0 <= i < j < self.scenarios@.len() ==> (#[trigger] self.scenarios@[i]).0@ != (
            #[trigger] self.scenarios@[j]).0@
    }

    /// Resolve every named scenario against the default block, in list order,
    /// failing on the first scenario that does not resolve: a benchmark is
    /// validated whole or not at all. Distinct input names — what a parsed
    /// mapping always hands over — make a well-formed benchmark.
    pub fn from_file_config(cfg: BenchmarkFileConfig) -> (r: Result<
        ProducerBenchmark,
        ConfigError,
    >)
        ensures
            r is Ok <==> (forall|i: int|
                0 <= i < cfg.scenarios@.len() ==> resolvable(
                    cfg.default,
                    (#[trigger] cfg.scenarios@[i]).1,
                )),
            r matches Ok(b) ==> {
                &&& b.scenarios@.len() == cfg.scenarios@.len()
                &&& forall|i: int|
                    0 <= i < cfg.scenarios@.len() ==> (#[trigger] b.scenarios@[i]).0
                        == cfg.scenarios@[i].0
                &&& forall|i: int|
                    0 <= i < cfg.scenarios@.len() ==> resolves_to(
                        cfg.default,
                        cfg.scenarios@[i].1,
                        (#[trigger] b.scenarios@[i]).1,
                    )
            },
            r matches Err(e) ==> exists|i: int|
                0 <= i < cfg.scenarios@.len() && !resolvable(
                    cfg.default,
                    (#[trigger] cfg.scenarios@[i]).1,
                ) && e == spec_resolve_error(cfg.default, cfg.scenarios@[i].1) && (forall|j: int|
                    0 <= j < i ==> resolvable(cfg.default, (#[trigger] cfg.scenarios@[j]).1)),
            distinct_names(cfg.scenarios@) ==> (r matches Ok(b) ==> b.wf()),
    {
        let BenchmarkFileConfig { default, mut scenarios } = cfg;
        let ghost orig = scenarios@;
        let mut out: Vec<(String, ProducerScenario)> = Vec::new();
        while scenarios.len() > 0
            invariant
                out@.len() + scenarios@.len() == orig.len(),
                scenarios@ == orig.skip(out@.len() as int),
                default == cfg.default,
                orig == cfg.scenarios@,
                forall|j: int|
                    0 <= j < out@.len() ==> resolvable(default, (#[trigger] orig[j]).1),
                forall|j: int|
                    0 <= j < out@.len() ==> (#[trigger] out@[j]).0 == orig[j].0,
                forall|j: int|
                    0 <= j < out@.len() ==> resolves_to(default, orig[j].1, (#[trigger] out@[j]).1),
            decreases scenarios@.len(),
        {
            let ghost n = out@.len() as int;
            let (name, sc) = scenarios.remove(0);
            proof {
                assert(name == orig[n].0 && sc == orig[n].1);
                assert(orig.skip(n).remove(0) =~= orig.skip(n + 1));
            }
            match ProducerScenario::from_file_config(&default, sc) {
                Ok(s) => {
                    out.push((name, s));
                },
                Err(e) => {
                    proof {
                        assert(!resolvable(cfg.default, cfg.scenarios@[n].1));
                    }
                    return Err(e);
                },
            }
        }
        Ok(ProducerBenchmark { scenarios: out })
    }
}

} // verus!
