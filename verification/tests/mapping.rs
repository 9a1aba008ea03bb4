use mqtt_sql_forwarder::mapping::DestinationMapping;

#[test]
fn absent_topic_resolves_to_itself() {
    let m = DestinationMapping::new();
    assert_eq!(m.resolve("sensors/temp"), "sensors/temp");

    let mut m = DestinationMapping::new();
    m.insert("other/topic", "other_table");
    assert_eq!(m.resolve("sensors/temp"), "sensors/temp");
}

#[test]
fn mapped_topic_resolves_to_its_table() {
    let mut m = DestinationMapping::new();
    m.insert("sensors/temp", "temp_readings");
    assert_eq!(m.resolve("sensors/temp"), "temp_readings");
}

#[test]
fn earliest_binding_wins() {
    let mut m = DestinationMapping::new();
    m.insert("sensors/temp", "first_table");
    m.insert("sensors/temp", "second_table");
    assert_eq!(m.resolve("sensors/temp"), "first_table");
}
