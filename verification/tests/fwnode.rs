use ds90ub954::config::{
    ds90ub953_parse_dt, ds90ub954_parse_dt, get_u32, parse_serializer, GpioPinConfig,
};
use ds90ub954::error::Error;
use ds90ub954::fwnode::{FwNode, PropertyValue};
use ds90ub954::gpio::{try_get_gpio, Flags};
use ds90ub954::rx_port::RxPort;

fn sample() -> FwNode {
    let mut node = FwNode::new("test");
    node.set_property("test,bool-prop", PropertyValue::Empty);
    node.set_property("test,u32-prop", PropertyValue::Integers(vec![0xdeadbeef]));
    node.set_property("test,array", PropertyValue::Integers(vec![1, 2, 3, 4]));
    node.set_property("test,none", PropertyValue::Integers(vec![]));
    node.set_property(
        "compatible",
        PropertyValue::Strings(vec!["test,rust-device".to_string(), "test,other".to_string()]),
    );
    node
}

#[test]
fn presence_and_flags() {
    let node = sample();
    assert!(node.property_present("test,bool-prop"));
    assert!(node.property_read_bool("test,bool-prop"));
    assert!(node.property_present("test,u32-prop"));
    assert!(node.property_read_bool("test,u32-prop"));
    assert!(!node.property_present("test,absent"));
    assert!(!node.property_read_bool("test,absent"));
    assert!(!node.property_present(""));
}

#[test]
fn scalar_reads_and_defaults() {
    let node = sample();
    assert_eq!(node.property_read("test,u32-prop", None), Ok(0xdeadbeef));
    assert_eq!(node.property_read("test,u32-prop", Some(1)), Ok(0xdeadbeef));
    assert_eq!(node.property_read("test,array", None), Ok(1));
    assert_eq!(node.property_read("test,absent", Some(0x12)), Ok(0x12));
    assert_eq!(node.property_read("test,absent", None), Err(Error::PropertyMissing));
    assert_eq!(node.property_read("test,bool-prop", None), Err(Error::PropertyNoData));
    assert_eq!(node.property_read("test,bool-prop", Some(7)), Ok(7));
    assert_eq!(node.property_read("compatible", None), Err(Error::PropertyNoData));
    assert_eq!(node.property_read("test,none", None), Err(Error::PropertyTooShort));
    assert_eq!(node.property_read("test,none", Some(9)), Ok(9));
}

#[test]
fn array_reads() {
    let node = sample();
    assert_eq!(node.property_read_array::<4>("test,array", None), Ok([1, 2, 3, 4]));
    assert_eq!(node.property_read_array::<2>("test,array", None), Ok([1, 2]));
    assert_eq!(node.property_read_array::<0>("test,array", None), Ok([]));
    assert_eq!(node.property_read_array::<5>("test,array", None), Err(Error::PropertyTooShort));
    assert_eq!(node.property_read_array::<5>("test,array", Some([9; 5])), Ok([9; 5]));
    assert_eq!(node.property_read_array::<1>("test,absent", None), Err(Error::PropertyMissing));
    assert_eq!(node.property_read_array::<1>("test,absent", Some([3])), Ok([3]));
    assert_eq!(node.property_read_array::<0>("test,absent", None), Err(Error::PropertyMissing));
    assert_eq!(node.property_read_array::<1>("compatible", None), Err(Error::PropertyNoData));
    assert_eq!(node.property_read_array_vec("test,array", 4), Ok(vec![1, 2, 3, 4]));
    assert_eq!(node.property_read_array_vec("test,array", 3), Ok(vec![1, 2, 3]));
    assert_eq!(node.property_read_array_vec("test,array", 0), Ok(vec![]));
    assert_eq!(node.property_read_array_vec("test,array", 5), Err(Error::PropertyTooShort));
    assert_eq!(node.property_read_array_vec("test,absent", 1), Err(Error::PropertyMissing));
    assert_eq!(node.property_read_array_vec("test,bool-prop", 1), Err(Error::PropertyNoData));
}

#[test]
fn element_counts() {
    let node = sample();
    assert_eq!(node.property_count_elem("test,array"), Ok(4));
    assert_eq!(node.property_count_elem("test,u32-prop"), Ok(1));
    assert_eq!(node.property_count_elem("test,none"), Ok(0));
    assert_eq!(node.property_count_elem("test,absent"), Err(Error::PropertyMissing));
    assert_eq!(node.property_count_elem("test,bool-prop"), Err(Error::PropertyNoData));
}

#[test]
fn string_reads() {
    let mut node = sample();
    assert_eq!(node.property_read_string("compatible"), Ok("test,rust-device".to_string()));
    assert_eq!(node.property_match_string("compatible", "test,rust-device"), Ok(0));
    assert_eq!(node.property_match_string("compatible", "test,other"), Ok(1));
    assert_eq!(node.property_match_string("compatible", "test"), Err(Error::PropertyNoData));
    assert_eq!(node.property_match_string("absent", "test"), Err(Error::PropertyMissing));
    assert_eq!(node.property_match_string("test,array", "test"), Err(Error::PropertyNoData));
    assert_eq!(node.property_read_string("absent"), Err(Error::PropertyMissing));
    assert_eq!(node.property_read_string("test,array"), Err(Error::PropertyNoData));
    node.set_property("empty", PropertyValue::Strings(vec![]));
    assert_eq!(node.property_read_string("empty"), Err(Error::PropertyNoData));
    node.set_property(
        "twice",
        PropertyValue::Strings(vec!["a".to_string(), "b".to_string(), "b".to_string()]),
    );
    assert_eq!(node.property_match_string("twice", "b"), Ok(1));
}

#[test]
fn setting_a_property_again_replaces_it() {
    let mut node = sample();
    node.set_property("test,u32-prop", PropertyValue::Integers(vec![5]));
    assert_eq!(node.property_read("test,u32-prop", None), Ok(5));
    assert_eq!(node.property_read("test,array", None), Ok(1));
    node.set_property("test,array", PropertyValue::Empty);
    assert_eq!(node.property_read("test,array", None), Err(Error::PropertyNoData));
    assert_eq!(node.property_read("test,u32-prop", None), Ok(5));
    assert!(node.property_present("test,bool-prop"));
}

#[test]
fn children_by_name() {
    let mut node = FwNode::new("deserializer");
    assert!(node.children().is_empty());
    assert!(node.get_child_by_name("serializer").is_none());
    let mut first = FwNode::new("serializer");
    first.set_property("rx-channel", PropertyValue::Integers(vec![1]));
    node.add_child(FwNode::new("port"));
    node.add_child(first);
    node.add_child(FwNode::new("serializer"));
    assert_eq!(node.children().len(), 3);
    let found = node.get_child_by_name("serializer").unwrap();
    assert_eq!(found.property_read("rx-channel", None), Ok(1));
    assert!(node.get_child_by_name("port").is_some());
    assert!(node.get_child_by_name("ports").is_none());
    assert_eq!(node.children()[2].property_read("rx-channel", None), Err(Error::PropertyMissing));
}

#[test]
fn gpio_requests() {
    assert_eq!(try_get_gpio(Ok(())), Ok(true));
    assert_eq!(try_get_gpio(Err(517)), Err(Error::DeferredProbe));
    assert_eq!(try_get_gpio(Err(2)), Ok(false));
    assert_eq!(try_get_gpio(Err(-517)), Ok(false));
    assert_eq!(try_get_gpio(Err(0)), Ok(false));
    assert_eq!(Flags::AsIs.bits(), 0);
    assert_eq!(Flags::In.bits(), 1);
    assert_eq!(Flags::OutLow.bits(), 3);
    assert_eq!(Flags::OutHigh.bits(), 7);
    assert_eq!(Flags::OutLowOpenDrain.bits(), 11);
    assert_eq!(Flags::OutHighOpenDrain.bits(), 15);
}

#[test]
fn deserializer_defaults() {
    let node = FwNode::new("deserializer");
    let config = ds90ub954_parse_dt(&node, Ok(()), Err(2), Ok(())).unwrap();
    assert!(config.pass_gpio);
    assert!(!config.lock_gpio);
    assert!(config.pdb_gpio);
    assert_eq!(config.csi_lane_count, 4);
    assert_eq!(config.csi_lane_speed, 1600);
    assert!(!config.test_pattern);
    assert!(!config.continuous_clock);
}

#[test]
fn deserializer_properties() {
    let mut node = FwNode::new("deserializer");
    node.set_property("csi-lane-count", PropertyValue::Integers(vec![2]));
    node.set_property("csi-lane-speed", PropertyValue::Integers(vec![400]));
    node.set_property("test-pattern", PropertyValue::Empty);
    node.set_property("continuous-clock", PropertyValue::Empty);
    let config = ds90ub954_parse_dt(&node, Err(19), Err(2), Err(22)).unwrap();
    assert!(!config.pass_gpio && !config.lock_gpio && !config.pdb_gpio);
    assert_eq!(config.csi_lane_count, 2);
    assert_eq!(config.csi_lane_speed, 400);
    assert!(config.test_pattern);
    assert!(config.continuous_clock);
    assert_eq!(
        ds90ub954_parse_dt(&node, Ok(()), Ok(()), Err(517)).err(),
        Some(Error::DeferredProbe)
    );
    // a property of the wrong kind counts as absent
    node.set_property("csi-lane-count", PropertyValue::Empty);
    let config = ds90ub954_parse_dt(&node, Ok(()), Ok(()), Ok(())).unwrap();
    assert_eq!(config.csi_lane_count, 4);
}

#[test]
fn serializer_defaults() {
    let node = FwNode::new("serializer");
    let config = parse_serializer(&node);
    assert_eq!(config.rx_channel, RxPort::Zero);
    assert!(!config.test_pattern);
    assert_eq!(config.i2c_address, 0x18);
    assert_eq!(config.csi_lane_count, 4);
    assert!(!config.continuous_clock);
    assert!(!config.i2c_pass_through_all);
    assert_eq!(config.gpio, [GpioPinConfig { output_enable: 0, control: 0b1000 }; 4]);
    assert_eq!(config.hs_clk_div, 0b010);
    assert_eq!(config.div_m_val, 1);
    assert_eq!(config.div_n_val, 0x28);
    assert_eq!(config.virtual_channel_map, 0xe4);
}

#[test]
fn serializer_properties() {
    let mut node = FwNode::new("serializer");
    node.set_property("rx-channel", PropertyValue::Integers(vec![1]));
    node.set_property("test-pattern", PropertyValue::Empty);
    node.set_property("i2c-address", PropertyValue::Integers(vec![0x1a]));
    node.set_property("csi-lane-count", PropertyValue::Integers(vec![2]));
    node.set_property("continuous-clock", PropertyValue::Empty);
    node.set_property("i2c-pass-through-all", PropertyValue::Empty);
    node.set_property("gpio0-output-enable", PropertyValue::Integers(vec![1]));
    node.set_property("gpio0-control", PropertyValue::Integers(vec![2]));
    node.set_property("gpio2-control", PropertyValue::Integers(vec![3]));
    node.set_property("gpio3-output-enable", PropertyValue::Integers(vec![4]));
    node.set_property("hs-clk-div", PropertyValue::Integers(vec![16]));
    node.set_property("div-m-val", PropertyValue::Integers(vec![2]));
    node.set_property("div-n-val", PropertyValue::Integers(vec![0x30]));
    node.set_property("virtual-channel-map", PropertyValue::Integers(vec![0x1b]));
    let config = parse_serializer(&node);
    assert_eq!(config.rx_channel, RxPort::One);
    assert!(config.test_pattern);
    assert_eq!(config.i2c_address, 0x1a);
    assert_eq!(config.csi_lane_count, 2);
    assert!(config.continuous_clock);
    assert!(config.i2c_pass_through_all);
    assert_eq!(
        config.gpio,
        [
            GpioPinConfig { output_enable: 1, control: 2 },
            GpioPinConfig { output_enable: 0, control: 0b1000 },
            GpioPinConfig { output_enable: 0, control: 3 },
            GpioPinConfig { output_enable: 4, control: 0b1000 },
        ]
    );
    assert_eq!(config.hs_clk_div, 0b100);
    assert_eq!(config.div_m_val, 2);
    assert_eq!(config.div_n_val, 0x30);
    assert_eq!(config.virtual_channel_map, 0x1b);
}

#[test]
fn clock_divider_codes() {
    for (factor, code) in [(1, 0), (2, 1), (4, 2), (8, 3), (16, 4), (0, 2), (3, 2), (32, 2)] {
        let mut node = FwNode::new("serializer");
        node.set_property("hs-clk-div", PropertyValue::Integers(vec![factor]));
        assert_eq!(parse_serializer(&node).hs_clk_div, code);
    }
}

#[test]
fn channel_numbers() {
    for (number, port) in [
        (0, RxPort::Zero),
        (1, RxPort::One),
        (2, RxPort::Both),
        (3, RxPort::Zero),
        (u32::MAX, RxPort::Zero),
    ] {
        let mut node = FwNode::new("serializer");
        node.set_property("rx-channel", PropertyValue::Integers(vec![number]));
        assert_eq!(parse_serializer(&node).rx_channel, port);
        assert_eq!(RxPort::from(number), port);
    }
    assert_eq!(RxPort::Zero.to_u32(), 0);
    assert_eq!(RxPort::One.to_u32(), 1);
    assert_eq!(RxPort::Both.to_u32(), 2);
}

#[test]
fn serializers_are_read_node_by_node() {
    let mut one = FwNode::new("serializer");
    one.set_property("rx-channel", PropertyValue::Integers(vec![1]));
    let zero = FwNode::new("serializer");
    let mut extra = FwNode::new("serializer");
    extra.set_property("rx-channel", PropertyValue::Integers(vec![2]));
    let none = ds90ub953_parse_dt(&vec![]);
    assert!(none[0].is_none() && none[1].is_none());
    let single = ds90ub953_parse_dt(&vec![one]);
    assert_eq!(single[0].unwrap().rx_channel, RxPort::One);
    assert!(single[1].is_none());
    let mut one = FwNode::new("serializer");
    one.set_property("rx-channel", PropertyValue::Integers(vec![1]));
    let all = ds90ub953_parse_dt(&vec![zero, one, extra]);
    assert_eq!(all[0].unwrap().rx_channel, RxPort::Zero);
    assert_eq!(all[1].unwrap().rx_channel, RxPort::One);
}

#[test]
fn get_u32_falls_back() {
    let node = sample();
    assert_eq!(get_u32(&node, "test,u32-prop", 1), 0xdeadbeef);
    assert_eq!(get_u32(&node, "test,absent", 1), 1);
    assert_eq!(get_u32(&node, "test,bool-prop", 2), 2);
    assert_eq!(get_u32(&node, "test,none", 3), 3);
}
