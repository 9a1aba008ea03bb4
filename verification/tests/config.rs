use mqtt_sql_forwarder::config::{MqttClientConfig, MqttSetupConfig, Settings, Topic};
use mqtt_sql_forwarder::options::{Options, RetainHandling, SubscribeOptions, TopicOptions};
use mqtt_sql_forwarder::registry::Subscriptions;
use mqtt_sql_forwarder::ConfigError;

#[test]
fn retain_handling_codes_decode_exactly() {
    assert_eq!(
        RetainHandling::from_code(0),
        Ok(RetainHandling::SendRetainedOnSubscribe)
    );
    assert_eq!(RetainHandling::from_code(1), Ok(RetainHandling::SendRetainedOnNew));
    assert_eq!(RetainHandling::from_code(2), Ok(RetainHandling::DontSendRetained));
    assert_eq!(
        RetainHandling::from_code(3),
        Err(ConfigError::InvalidRetainHandling)
    );
    assert_eq!(
        RetainHandling::from_code(-1),
        Err(ConfigError::InvalidRetainHandling)
    );
    assert_eq!(RetainHandling::from_code(RetainHandling::DontSendRetained.code()), Ok(RetainHandling::DontSendRetained));
}

#[test]
fn raw_topic_options_validate() {
    let raw = TopicOptions { no_local: true, retain_as_publish: true, retain_handling: 2 };
    assert_eq!(
        raw.to_subscribe_options(),
        Ok(SubscribeOptions {
            no_local: true,
            retain_as_published: true,
            retain_handling: RetainHandling::DontSendRetained,
        })
    );
    let bad = TopicOptions { no_local: false, retain_as_publish: false, retain_handling: 7 };
    assert_eq!(bad.to_subscribe_options(), Err(ConfigError::InvalidRetainHandling));
}

#[test]
fn setup_builds_session_configuration() {
    let setup = MqttSetupConfig {
        client_id: "saltyfishie_1".to_string(),
        broker_uri: "mqtt://test.mosquitto.org:1883".to_string(),
        subscriptions: vec![
            Topic { topic: "saltyfishie/echo".to_string(), qos: 1, options: None },
            Topic {
                topic: "sensors/temp".to_string(),
                qos: 2,
                options: Some(TopicOptions {
                    no_local: true,
                    retain_as_publish: false,
                    retain_handling: 1,
                }),
            },
        ],
    };
    let c = MqttClientConfig::from_setup(setup).unwrap();
    assert_eq!(c.client_id, "saltyfishie_1");
    assert_eq!(c.broker_uri, "mqtt://test.mosquitto.org:1883");
    assert_eq!(c.keep_alive_ms, 5000);
    assert!(!c.clean_start);
    assert_eq!(c.session_expiry_s, 60);
    assert_eq!(c.msg_buffer_limit, 100);
    let lwt = c.last_will.unwrap();
    assert_eq!(lwt.topic, "saltyfishie/echo/lwt");
    assert_eq!(lwt.payload, "[LWT] Async subscriber v5 lost connection");
    assert_eq!(lwt.qos, 1);
    assert_eq!(
        c.subscriptions.topics,
        vec!["saltyfishie/echo".to_string(), "sensors/temp".to_string()]
    );
    assert_eq!(c.subscriptions.qos, vec![1, 2]);
    assert_eq!(c.subscriptions.opts[0], SubscribeOptions::default());
    assert_eq!(
        c.subscriptions.opts[1],
        SubscribeOptions {
            no_local: true,
            retain_as_published: false,
            retain_handling: RetainHandling::SendRetainedOnNew,
        }
    );
}

#[test]
fn setup_rejects_first_invalid_topic() {
    let setup = MqttSetupConfig {
        client_id: String::new(),
        broker_uri: String::new(),
        subscriptions: vec![
            Topic { topic: "ok".to_string(), qos: 0, options: None },
            Topic { topic: "bad-qos".to_string(), qos: 9, options: None },
            Topic {
                topic: "bad-retain".to_string(),
                qos: 1,
                options: Some(TopicOptions {
                    no_local: false,
                    retain_as_publish: false,
                    retain_handling: 5,
                }),
            },
        ],
    };
    assert!(matches!(
        MqttClientConfig::from_setup(setup),
        Err(ConfigError::InvalidQos)
    ));

    let setup = MqttSetupConfig {
        client_id: String::new(),
        broker_uri: String::new(),
        subscriptions: vec![Topic {
            topic: "bad-retain".to_string(),
            qos: 1,
            options: Some(TopicOptions {
                no_local: false,
                retain_as_publish: false,
                retain_handling: 5,
            }),
        }],
    };
    assert!(matches!(
        MqttClientConfig::from_setup(setup),
        Err(ConfigError::InvalidRetainHandling)
    ));
}

#[test]
fn qos_is_checked_before_retain_code_within_one_topic() {
    let setup = MqttSetupConfig {
        client_id: String::new(),
        broker_uri: String::new(),
        subscriptions: vec![Topic {
            topic: "both-bad".to_string(),
            qos: -3,
            options: Some(TopicOptions {
                no_local: false,
                retain_as_publish: false,
                retain_handling: 5,
            }),
        }],
    };
    assert!(matches!(
        MqttClientConfig::from_setup(setup),
        Err(ConfigError::InvalidQos)
    ));
}

#[test]
fn positional_vectors_must_match() {
    let r = Subscriptions::from_parts(
        vec!["a".to_string(), "b".to_string()],
        vec![1],
        vec![SubscribeOptions::default(), SubscribeOptions::default()],
    );
    assert!(matches!(r, Err(ConfigError::MismatchedSubscriptionVectors)));

    let r = Subscriptions::from_parts(
        vec!["a".to_string()],
        vec![4],
        vec![SubscribeOptions::default()],
    );
    assert!(matches!(r, Err(ConfigError::InvalidQos)));

    let r = Subscriptions::from_parts(
        vec!["a".to_string()],
        vec![2],
        vec![SubscribeOptions::default()],
    )
    .unwrap();
    assert_eq!(r.topics, vec!["a".to_string()]);
    assert_eq!(r.qos, vec![2]);
}

#[test]
fn settings_entries_append_to_registry() {
    let mut reg = Subscriptions::new();
    let ok = reg.add_from_settings(
        "mapped/topic",
        &Settings {
            qos: 1,
            options: Some(Options {
                no_local: true,
                retain_as_publish: true,
                retain_handling: RetainHandling::DontSendRetained,
            }),
        },
    );
    assert!(ok.is_ok());
    assert_eq!(reg.topics, vec!["mapped/topic".to_string()]);
    assert_eq!(reg.qos, vec![1]);
    assert_eq!(
        reg.opts[0],
        SubscribeOptions {
            no_local: true,
            retain_as_published: true,
            retain_handling: RetainHandling::DontSendRetained,
        }
    );

    let bad = reg.add_from_settings("other", &Settings { qos: 5, options: None });
    assert_eq!(bad, Err(ConfigError::InvalidQos));
    assert_eq!(reg.topics.len(), 1);
}

#[test]
fn default_configuration_is_inert() {
    let c = MqttClientConfig::default();
    assert_eq!(c.client_id, "");
    assert_eq!(c.broker_uri, "");
    assert_eq!(c.msg_buffer_limit, 1);
    assert!(c.last_will.is_none());
    assert_eq!(c.subscriptions.topics.len(), 0);
}

#[test]
fn config_error_messages_name_the_cause() {
    assert_eq!(ConfigError::InvalidQos.message(), "delivery quality must be 0, 1 or 2");
    assert_eq!(
        ConfigError::InvalidRetainHandling.message(),
        "retain-handling code must be 0, 1 or 2"
    );
    assert_eq!(
        ConfigError::MismatchedSubscriptionVectors.message(),
        "subscription vectors differ in length"
    );
}
