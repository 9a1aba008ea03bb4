//! Session configuration: the raw forms a configuration document supplies,
//! their validation, and the immutable configuration a session runs with.
//! A malformed configuration is a fatal startup error, never retried.

use vstd::prelude::*;

use crate::mapping::DestinationMapping;
use crate::options::{Options, RetainHandling, SubscribeOptions, TopicOptions};
use crate::registry::Subscriptions;
use crate::ConfigError;

verus! {

/// One topic subscription as a raw configuration document supplies it.
#[derive(Debug)]
pub struct Topic {
    pub topic: String,
    pub qos: i32,
    pub options: Option<TopicOptions>,
}

/// Per-topic settings in the map-shaped configuration form, with the
/// retain-handling policy already decoded.
#[derive(Debug)]
pub struct Settings {
    pub qos: i32,
    pub options: Option<Options>,
}

/// The broker side of the configuration document: client identity, broker
/// endpoint, and the ordered subscription list.
#[derive(Debug)]
pub struct MqttSetupConfig {
    pub client_id: String,
    pub broker_uri: String,
    pub subscriptions: Vec<Topic>,
}

/// The storage side of the configuration document: where the sink connects,
/// and the topic-to-table routing.
#[derive(Debug)]
pub struct SqlServerSetupConfig {
    pub host: String,
    pub username: String,
    pub password: Option<String>,
    pub database: String,
    pub port: Option<u16>,
    pub topic_table_map: DestinationMapping,
}

/// The message the broker publishes on the session's behalf if it
/// disconnects uncleanly.
#[derive(Debug)]
pub struct LastWill {
    pub topic: String,
    pub payload: String,
    pub qos: i32,
}

/// The validated, immutable configuration one session runs with.
#[derive(Debug)]
pub struct MqttClientConfig {
    pub client_id: String,
    pub broker_uri: String,
    pub keep_alive_ms: u64,
    pub clean_start: bool,
    pub session_expiry_s: u32,
    pub last_will: Option<LastWill>,
    pub msg_buffer_limit: usize,
    pub subscriptions: Subscriptions,
}

/// The fatal error one raw topic carries, if any: an out-of-range delivery
/// quality is reported before an invalid retain-handling code.
pub open spec fn topic_error(t: Topic) -> Option<ConfigError> {
    if !(0 <= t.qos <= 2) {
        Some(ConfigError::InvalidQos)
    } else if t.options matches Some(o) && RetainHandling::spec_from_code(o.retain_handling)
        is Err {
        Some(ConfigError::InvalidRetainHandling)
    } else {
        None
    }
}

/// The first fatal error in a raw subscription list, if any.
pub open spec fn topics_error(s: Seq<Topic>) -> Option<ConfigError>
    decreases s.len(),
{
    if s.len() == 0 {
        None
    } else if topic_error(s[0]) is Some {
        topic_error(s[0])
    } else {
        topics_error(s.drop_first())
    }
}

/// The validated options of a raw topic; the protocol defaults where the
/// document gives none.
pub open spec fn spec_topic_opts(t: Topic) -> SubscribeOptions {
    match t.options {
        Some(o) => match o.spec_to_subscribe_options() {
            Ok(s) => s,
            Err(_) => SubscribeOptions::spec_default(),
        },
        None => SubscribeOptions::spec_default(),
    }
}

/// The registry entry a valid raw topic becomes.
pub open spec fn spec_topic_entry(t: Topic) -> (Seq<char>, i32, SubscribeOptions) {
    (t.topic@, t.qos, spec_topic_opts(t))
}

impl MqttClientConfig {
    /// Validates a raw configuration document and builds the session
    /// configuration: the document's identity and subscription list, the
    /// fixed connection profile (5 s keep-alive, resumed sessions with a
    /// 60 s expiry, the last-will announcement), and a 100-message buffer.
    /// Fails with the first fatal error of the subscription list, in list
    /// order.
    pub fn from_setup(cfg: MqttSetupConfig) -> (r: Result<MqttClientConfig, ConfigError>)
        ensures
            topics_error(cfg.subscriptions@) matches Some(e) ==> r == Err::<
                MqttClientConfig,
                ConfigError,
            >(e),
            r is Ok <==> topics_error(cfg.subscriptions@) is None,
            r matches Ok(c) ==> {
                &&& c.client_id@ == cfg.client_id@
                &&& c.broker_uri@ == cfg.broker_uri@
                &&& c.keep_alive_ms == 5000
                &&& c.clean_start == false
                &&& c.session_expiry_s == 60
                &&& c.last_will matches Some(w) && w.topic@ == "saltyfishie/echo/lwt"@
                    && w.payload@ == "[LWT] Async subscriber v5 lost connection"@ && w.qos == 1
                &&& c.msg_buffer_limit == 100
                &&& c.subscriptions.well_formed()
                &&& c.subscriptions.entries() == cfg.subscriptions@.map_values(
                    |t: Topic| spec_topic_entry(t),
                )
            },
    {
        let ghost expected = cfg.subscriptions@.map_values(|t: Topic| spec_topic_entry(t));
        let mut reg = Subscriptions::new();
        let mut i: usize = 0;
        proof {
            assert(reg.entries() =~~= expected.take(0));
            assert(cfg.subscriptions@.skip(0) =~~= cfg.subscriptions@);
        }
        while i < cfg.subscriptions.len()
            invariant
                i <= cfg.subscriptions@.len(),
                expected == cfg.subscriptions@.map_values(|t: Topic| spec_topic_entry(t)),
                topics_error(cfg.subscriptions@.skip(i as int)) == topics_error(
                    cfg.subscriptions@,
                ),
                reg.well_formed(),
                reg.entries() == expected.take(i as int),
            decreases cfg.subscriptions@.len() - i,
        {
            let ghost rest = cfg.subscriptions@.skip(i as int);
            proof {
                assert(rest[0] == cfg.subscriptions@[i as int]);
                assert(rest.drop_first() =~~= cfg.subscriptions@.skip(i + 1));
            }
            let t = &cfg.subscriptions[i];
            if t.qos < 0 || t.qos > 2 {
                return Err(ConfigError::InvalidQos);
            }
            let opt = match &t.options {
                Some(o) => match o.to_subscribe_options() {
                    Ok(s) => s,
                    Err(e) => {
                        return Err(e);
                    },
                },
                None => SubscribeOptions::default(),
            };
            reg.add(t.topic.as_str(), t.qos, opt);
            proof {
                assert(expected[i as int] == spec_topic_entry(cfg.subscriptions@[i as int]));
                assert(expected.take(i + 1) =~~= expected.take(i as int).push(
                    expected[i as int],
                ));
            }
            i = i + 1;
        }
        proof {
            assert(cfg.subscriptions@.skip(cfg.subscriptions@.len() as int) =~~= Seq::<
                Topic,
            >::empty());
            assert(expected.take(cfg.subscriptions@.len() as int) =~~= expected);
        }
        Ok(
            MqttClientConfig {
                client_id: cfg.client_id,
                broker_uri: cfg.broker_uri,
                keep_alive_ms: 5000,
                clean_start: false,
                session_expiry_s: 60,
                last_will: Some(
                    LastWill {
                        topic: "saltyfishie/echo/lwt".to_owned(),
                        payload: "[LWT] Async subscriber v5 lost connection".to_owned(),
                        qos: 1,
                    },
                ),
                msg_buffer_limit: 100,
                subscriptions: reg,
            },
        )
    }
}

impl Default for MqttClientConfig {
    /// An inert configuration: no identity, no endpoint, no subscriptions,
    /// the fixed connection profile, and a single-message buffer.
    fn default() -> (r: MqttClientConfig)
        ensures
            r.client_id@ == Seq::<char>::empty(),
            r.broker_uri@ == Seq::<char>::empty(),
            r.keep_alive_ms == 5000,
            r.clean_start == false,
            r.session_expiry_s == 60,
            r.last_will is None,
            r.msg_buffer_limit == 1,
            r.subscriptions.well_formed(),
            r.subscriptions.entries() == Seq::<(Seq<char>, i32, SubscribeOptions)>::empty(),
    {
        MqttClientConfig {
            client_id: String::new(),
            broker_uri: String::new(),
            keep_alive_ms: 5000,
            clean_start: false,
            session_expiry_s: 60,
            last_will: None,
            msg_buffer_limit: 1,
            subscriptions: Subscriptions::new(),
        }
    }
}

/// The validated options a map-shaped settings entry carries.
pub open spec fn spec_settings_opts(s: Settings) -> SubscribeOptions {
    match s.options {
        Some(o) => SubscribeOptions {
            no_local: o.no_local,
            retain_as_published: o.retain_as_publish,
            retain_handling: o.retain_handling,
        },
        None => SubscribeOptions::spec_default(),
    }
}

impl Subscriptions {
    /// Appends the entry a map-shaped configuration item describes: a topic
    /// name with its per-topic settings.  An out-of-range delivery quality
    /// is the one fatal error this form can carry.
    pub fn add_from_settings(&mut self, topic: &str, settings: &Settings) -> (r: Result<
        (),
        ConfigError,
    >)
        requires
            old(self).well_formed(),
        ensures
            final(self).well_formed(),
            0 <= settings.qos <= 2 ==> r is Ok && final(self).entries() == old(
                self,
            ).entries().push((topic@, settings.qos, spec_settings_opts(*settings))),
            !(0 <= settings.qos <= 2) ==> r == Err::<(), ConfigError>(ConfigError::InvalidQos)
                && final(self).entries() == old(self).entries(),
    {
        if settings.qos < 0 || settings.qos > 2 {
            return Err(ConfigError::InvalidQos);
        }
        let opt = match &settings.options {
            Some(o) => SubscribeOptions::from(*o),
            None => SubscribeOptions::default(),
        };
        self.add(topic, settings.qos, opt);
        Ok(())
    }
}

} // verus!
