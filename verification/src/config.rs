//! Configuration of the deserializer and of the serializers behind it, and
//! how it is read from firmware properties.

use vstd::prelude::*;
use crate::error::Error;
use crate::fwnode::{integer_or, FwNode, PropertyValue};
use crate::gpio::{line_present, try_get_gpio};
use crate::rx_port::RxPort;

verus! {

/// Number of serializers that one deserializer can have behind it.
pub const NUM_SERIALIZER: usize = 2;

/// Lane count used where none is configured.
pub const DEFAULT_CSI_LANE_COUNT: u32 = 4;

/// Lane speed in Mbps used where none is configured.
pub const DEFAULT_CSI_LANE_SPEED: u32 = 1600;

/// I2C address of a serializer where none is configured.
pub const DEFAULT_I2C_ADDRESS: u32 = 0x18;

/// Control code of a serializer pin where none is configured.
pub const DEFAULT_GPIO_CONTROL: u32 = 0b1000;

/// Code of the high-speed clock divider where none, or none that exists, is
/// configured: divide by 4.
pub const DEFAULT_HS_CLK_DIV: u32 = 0b010;

/// Clock multiplier of a serializer where none is configured.
pub const DEFAULT_DIV_M_VAL: u32 = 1;

/// Clock divider of a serializer where none is configured.
pub const DEFAULT_DIV_N_VAL: u32 = 0x28;

/// Virtual channel map of a serializer where none is configured.
pub const DEFAULT_VIRTUAL_CHANNEL_MAP: u32 = 0xE4;

/// The properties of the deserializer's node that are read.
pub const DESERIALIZER_PROPERTIES: [&'static str; 4] = [
    "csi-lane-count",
    "csi-lane-speed",
    "test-pattern",
    "continuous-clock",
];

/// The properties of a serializer's node that are read.
pub const SERIALIZER_PROPERTIES: [&'static str; 18] = [
    "rx-channel",
    "test-pattern",
    "csi-lane-count",
    "gpio0-output-enable",
    "gpio0-control",
    "gpio1-output-enable",
    "gpio1-control",
    "gpio2-output-enable",
    "gpio2-control",
    "gpio3-output-enable",
    "gpio3-control",
    "hs-clk-div",
    "div-m-val",
    "div-n-val",
    "i2c-address",
    "continuous-clock",
    "i2c-pass-through-all",
    "virtual-channel-map",
];

/// Configuration of one pin of a serializer.
#[derive(Debug, Clone, Copy, PartialEq, Eq, Structural)]
pub struct GpioPinConfig {
    /// Whether the pin drives its line.
    pub output_enable: u32,
    /// What the pin is driven by.
    pub control: u32,
}

/// Configuration of one serializer.
#[derive(Debug, Clone, Copy)]
pub struct SerializerConfig {
    /// The receive port of the deserializer that the serializer is wired to.
    pub rx_channel: RxPort,
    /// Whether the serializer generates a test pattern.
    pub test_pattern: bool,
    /// The I2C address under which the serializer is reached.
    pub i2c_address: u32,
    /// Number of CSI lanes, 1 to 4.
    pub csi_lane_count: u32,
    /// Continuous (true) or discontinuous (false) CSI clock.
    pub continuous_clock: bool,
    /// Whether all I2C traffic passes through to the serializer.
    pub i2c_pass_through_all: bool,
    /// The four pins of the serializer.
    pub gpio: [GpioPinConfig; 4],
    /// Code of the high-speed clock divider.
    pub hs_clk_div: u32,
    /// Multiplier of the reference output clock.
    pub div_m_val: u32,
    /// Divider of the reference output clock.
    pub div_n_val: u32,
    /// Map of the virtual channel identifiers.
    pub virtual_channel_map: u32,
}

/// What the firmware description says of the deserializer itself.
#[derive(Debug, Clone, Copy, PartialEq, Eq, Structural)]
pub struct Ds90ub954ParseDtReturn {
    /// Whether the line that reports PASS is wired.
    pub pass_gpio: bool,
    /// Whether the line that reports LOCK is wired.
    pub lock_gpio: bool,
    /// Whether the power-down line is wired.
    pub pdb_gpio: bool,
    /// Number of CSI lanes, 1 to 4.
    pub csi_lane_count: u32,
    /// CSI lane speed in Mbps: 400, 800 or 1600.
    pub csi_lane_speed: u32,
    /// Whether the deserializer generates a test pattern.
    pub test_pattern: bool,
    /// Continuous (true) or discontinuous (false) CSI clock.
    pub continuous_clock: bool,
}

/// The integer property `name`, or `default` where it cannot be read.
pub open spec fn u32_or(props: Map<Seq<char>, PropertyValue>, name: Seq<char>, default: u32) -> u32 {
    match integer_or(props, name, None) {
        Ok(v) => v,
        Err(_) => default,
    }
}

/// The code of the high-speed clock divider for a configured division
/// factor: 1, 2, 4, 8 and 16 have codes 0 to 4, anything else the default.
pub open spec fn hs_clk_div_code(factor: Result<u32, Error>) -> u32 {
    match factor {
        Ok(v) => if v == 1 {
            0b000
        } else if v == 2 {
            0b001
        } else if v == 4 {
            0b010
        } else if v == 8 {
            0b011
        } else if v == 16 {
            0b100
        } else {
            DEFAULT_HS_CLK_DIV
        },
        Err(_) => DEFAULT_HS_CLK_DIV,
    }
}

/// The configuration of the serializer pin `n` that the properties hold.
pub open spec fn parsed_gpio(
    props: Map<Seq<char>, PropertyValue>,
    output_enable: Seq<char>,
    control: Seq<char>,
) -> GpioPinConfig {
    GpioPinConfig {
        output_enable: u32_or(props, output_enable, 0),
        control: u32_or(props, control, DEFAULT_GPIO_CONTROL),
    }
}

/// Whether `config` is what the properties of a serializer node hold.
pub open spec fn is_parsed_serializer(
    props: Map<Seq<char>, PropertyValue>,
    config: SerializerConfig,
) -> bool {
    &&& config.rx_channel == RxPort::spec_from(u32_or(props, "rx-channel"@, 0))
    &&& config.test_pattern == props.dom().contains("test-pattern"@)
    &&& config.csi_lane_count == u32_or(props, "csi-lane-count"@, DEFAULT_CSI_LANE_COUNT)
    &&& config.gpio[0] == parsed_gpio(props, "gpio0-output-enable"@, "gpio0-control"@)
    &&& config.gpio[1] == parsed_gpio(props, "gpio1-output-enable"@, "gpio1-control"@)
    &&& config.gpio[2] == parsed_gpio(props, "gpio2-output-enable"@, "gpio2-control"@)
    &&& config.gpio[3] == parsed_gpio(props, "gpio3-output-enable"@, "gpio3-control"@)
    &&& config.hs_clk_div == hs_clk_div_code(integer_or(props, "hs-clk-div"@, None))
    &&& config.div_m_val == u32_or(props, "div-m-val"@, DEFAULT_DIV_M_VAL)
    &&& config.div_n_val == u32_or(props, "div-n-val"@, DEFAULT_DIV_N_VAL)
    &&& config.i2c_address == u32_or(props, "i2c-address"@, DEFAULT_I2C_ADDRESS)
    &&& config.continuous_clock == props.dom().contains("continuous-clock"@)
    &&& config.i2c_pass_through_all == props.dom().contains("i2c-pass-through-all"@)
    &&& config.virtual_channel_map == u32_or(
        props,
        "virtual-channel-map"@,
        DEFAULT_VIRTUAL_CHANNEL_MAP,
    )
}

/// Whether `serializers` is what the nodes `nodes` hold: entry `i` is the
/// serializer of node `i`, and the entries without a node are empty.
pub open spec fn are_parsed_serializers(
    nodes: Seq<FwNode>,
    serializers: [Option<SerializerConfig>; NUM_SERIALIZER],
) -> bool {
    forall|i: int|
        #![trigger serializers[i]]
        0 <= i < NUM_SERIALIZER ==> (if i < nodes.len() {
            serializers[i] is Some && is_parsed_serializer(
                nodes[i].properties(),
                serializers[i]->Some_0,
            )
        } else {
            serializers[i] is None
        })
}

/// What the properties of the deserializer node hold, given which of the
/// three lines are wired.
pub open spec fn parsed_deserializer(
    props: Map<Seq<char>, PropertyValue>,
    pass_gpio: bool,
    lock_gpio: bool,
    pdb_gpio: bool,
) -> Ds90ub954ParseDtReturn {
    Ds90ub954ParseDtReturn {
        pass_gpio,
        lock_gpio,
        pdb_gpio,
        csi_lane_count: u32_or(props, "csi-lane-count"@, DEFAULT_CSI_LANE_COUNT),
        csi_lane_speed: u32_or(props, "csi-lane-speed"@, DEFAULT_CSI_LANE_SPEED),
        test_pattern: props.dom().contains("test-pattern"@),
        continuous_clock: props.dom().contains("continuous-clock"@),
    }
}

/// Reads the integer property `name`, falling back to `default` where the
/// property is absent or holds no integer.
pub fn get_u32(node: &FwNode, name: &str, default: u32) -> (r: u32)
    ensures
        r == u32_or(node.properties(), name@, default),
{
    match node.property_read(name, None) {
        Ok(v) => v,
        Err(_) => default,
    }
}

/// Reads the configuration of the deserializer from its firmware node.
///
/// `pass`, `lock` and `pdb` are the outcomes of requesting the three
/// optional lines: `Ok` for a line that the platform handed out, else the
/// error number of the request. A request that is deferred fails the whole
/// read; any other failure means that the line is not wired. Properties
/// that are absent take their defaults.
pub fn ds90ub954_parse_dt(
    node: &FwNode,
    pass: Result<(), i32>,
    lock: Result<(), i32>,
    pdb: Result<(), i32>,
) -> (r: Result<Ds90ub954ParseDtReturn, Error>)
    ensures
        r is Err <==> (line_present(pass) is Err || line_present(lock) is Err || line_present(pdb)
            is Err),
        r is Err ==> r == Err::<Ds90ub954ParseDtReturn, Error>(Error::DeferredProbe),
        r is Ok ==> r->Ok_0 == parsed_deserializer(
            node.properties(),
            line_present(pass)->Ok_0,
            line_present(lock)->Ok_0,
            line_present(pdb)->Ok_0,
        ),
{
    let pass_gpio = try_get_gpio(pass)?;
    let lock_gpio = try_get_gpio(lock)?;
    let pdb_gpio = try_get_gpio(pdb)?;
    let csi_lane_count = get_u32(node, "csi-lane-count", DEFAULT_CSI_LANE_COUNT);
    let csi_lane_speed = get_u32(node, "csi-lane-speed", DEFAULT_CSI_LANE_SPEED);
    let test_pattern = node.property_read_bool("test-pattern");
    let continuous_clock = node.property_read_bool("continuous-clock");
    Ok(
        Ds90ub954ParseDtReturn {
            pass_gpio,
            lock_gpio,
            pdb_gpio,
            csi_lane_count,
            csi_lane_speed,
            test_pattern,
            continuous_clock,
        },
    )
}

/// Reads the configuration of one serializer from its firmware node.
/// Properties that are absent take their defaults; a channel number that
/// names no port gives port 0, and a clock division factor that does not
/// exist gives division by 4.
pub fn parse_serializer(node: &FwNode) -> (r: SerializerConfig)
    ensures
        is_parsed_serializer(node.properties(), r),
{
    let rx_channel = RxPort::from(get_u32(node, "rx-channel", 0));
    let test_pattern = node.property_read_bool("test-pattern");
    let csi_lane_count = get_u32(node, "csi-lane-count", DEFAULT_CSI_LANE_COUNT);
    let gpio = [
        GpioPinConfig {
            output_enable: get_u32(node, "gpio0-output-enable", 0),
            control: get_u32(node, "gpio0-control", DEFAULT_GPIO_CONTROL),
        },
        GpioPinConfig {
            output_enable: get_u32(node, "gpio1-output-enable", 0),
            control: get_u32(node, "gpio1-control", DEFAULT_GPIO_CONTROL),
        },
        GpioPinConfig {
            output_enable: get_u32(node, "gpio2-output-enable", 0),
            control: get_u32(node, "gpio2-control", DEFAULT_GPIO_CONTROL),
        },
        GpioPinConfig {
            output_enable: get_u32(node, "gpio3-output-enable", 0),
            control: get_u32(node, "gpio3-control", DEFAULT_GPIO_CONTROL),
        },
    ];
    let hs_clk_div = match node.property_read("hs-clk-div", None) {
        Ok(1) => 0b000,
        Ok(2) => 0b001,
        Ok(4) => 0b010,
        Ok(8) => 0b011,
        Ok(16) => 0b100,
        Ok(_) => DEFAULT_HS_CLK_DIV,
        Err(_) => DEFAULT_HS_CLK_DIV,
    };
    let div_m_val = get_u32(node, "div-m-val", DEFAULT_DIV_M_VAL);
    let div_n_val = get_u32(node, "div-n-val", DEFAULT_DIV_N_VAL);
    let i2c_address = get_u32(node, "i2c-address", DEFAULT_I2C_ADDRESS);
    let continuous_clock = node.property_read_bool("continuous-clock");
    let i2c_pass_through_all = node.property_read_bool("i2c-pass-through-all");
    let virtual_channel_map = get_u32(node, "virtual-channel-map", DEFAULT_VIRTUAL_CHANNEL_MAP);
    SerializerConfig {
        gpio,
        rx_channel,
        test_pattern,
        csi_lane_count,
        hs_clk_div,
        i2c_address,
        continuous_clock,
        i2c_pass_through_all,
        div_m_val,
        div_n_val,
        virtual_channel_map,
    }
}

/// Reads the configuration of the serializers, one firmware node each.
/// Entry `i` of the result holds the serializer of node `i`; entries
/// without a node are empty, and nodes beyond `NUM_SERIALIZER` are not read.
pub fn ds90ub953_parse_dt(nodes: &Vec<FwNode>) -> (r: [Option<SerializerConfig>; NUM_SERIALIZER])
    ensures
        are_parsed_serializers(nodes@, r),
{
    let mut res: [Option<SerializerConfig>; NUM_SERIALIZER] = [None;NUM_SERIALIZER];
    let mut i: usize = 0;
    while i < NUM_SERIALIZER
        invariant
            i <= NUM_SERIALIZER,
            forall|j: int|
                #![trigger res[j]]
                0 <= j < NUM_SERIALIZER ==> (if j < i && j < nodes@.len() {
                    res[j] is Some && is_parsed_serializer(
                        nodes@[j].properties(),
                        res[j]->Some_0,
                    )
                } else {
                    res[j] is None
                }),
        decreases NUM_SERIALIZER - i,
    {
        if i < nodes.len() {
            let config = parse_serializer(&nodes[i]);
            res[i] = Some(config);
        }
        i += 1;
    }
    res
}

/// Whether two sets of properties hold the same under each of `names`.
pub open spec fn agree_on(
    a: Map<Seq<char>, PropertyValue>,
    b: Map<Seq<char>, PropertyValue>,
    names: Seq<&'static str>,
) -> bool {
    forall|i: int|
        0 <= i < names.len() ==> (a.dom().contains((#[trigger] names[i])@) == b.dom().contains(
            names[i]@,
        ) && (a.dom().contains(names[i]@) ==> a[names[i]@] == b[names[i]@]))
}

/// The configuration of the deserializer depends on no property but those
/// of `DESERIALIZER_PROPERTIES`: nodes that agree on these give the same
/// configuration.
pub proof fn lemma_deserializer_reads_listed_properties(
    a: Map<Seq<char>, PropertyValue>,
    b: Map<Seq<char>, PropertyValue>,
    pass_gpio: bool,
    lock_gpio: bool,
    pdb_gpio: bool,
)
    requires
        agree_on(a, b, DESERIALIZER_PROPERTIES@),
    ensures
        parsed_deserializer(a, pass_gpio, lock_gpio, pdb_gpio) == parsed_deserializer(
            b,
            pass_gpio,
            lock_gpio,
            pdb_gpio,
        ),
{
    assert(DESERIALIZER_PROPERTIES@[0]@ == "csi-lane-count"@);
    assert(DESERIALIZER_PROPERTIES@[1]@ == "csi-lane-speed"@);
    assert(DESERIALIZER_PROPERTIES@[2]@ == "test-pattern"@);
    assert(DESERIALIZER_PROPERTIES@[3]@ == "continuous-clock"@);
}

/// The configuration of a serializer depends on no property but those of
/// `SERIALIZER_PROPERTIES`: nodes that agree on these give the same
/// configuration.
pub proof fn lemma_serializer_reads_listed_properties(
    a: Map<Seq<char>, PropertyValue>,
    b: Map<Seq<char>, PropertyValue>,
    config: SerializerConfig,
)
    requires
        agree_on(a, b, SERIALIZER_PROPERTIES@),
    ensures
        is_parsed_serializer(a, config) == is_parsed_serializer(b, config),
{
    assert(SERIALIZER_PROPERTIES@[0]@ == "rx-channel"@);
    assert(SERIALIZER_PROPERTIES@[1]@ == "test-pattern"@);
    assert(SERIALIZER_PROPERTIES@[2]@ == "csi-lane-count"@);
    assert(SERIALIZER_PROPERTIES@[3]@ == "gpio0-output-enable"@);
    assert(SERIALIZER_PROPERTIES@[4]@ == "gpio0-control"@);
    assert(SERIALIZER_PROPERTIES@[5]@ == "gpio1-output-enable"@);
    assert(SERIALIZER_PROPERTIES@[6]@ == "gpio1-control"@);
    assert(SERIALIZER_PROPERTIES@[7]@ == "gpio2-output-enable"@);
    assert(SERIALIZER_PROPERTIES@[8]@ == "gpio2-control"@);
    assert(SERIALIZER_PROPERTIES@[9]@ == "gpio3-output-enable"@);
    assert(SERIALIZER_PROPERTIES@[10]@ == "gpio3-control"@);
    assert(SERIALIZER_PROPERTIES@[11]@ == "hs-clk-div"@);
    assert(SERIALIZER_PROPERTIES@[12]@ == "div-m-val"@);
    assert(SERIALIZER_PROPERTIES@[13]@ == "div-n-val"@);
    assert(SERIALIZER_PROPERTIES@[14]@ == "i2c-address"@);
    assert(SERIALIZER_PROPERTIES@[15]@ == "continuous-clock"@);
    assert(SERIALIZER_PROPERTIES@[16]@ == "i2c-pass-through-all"@);
    assert(SERIALIZER_PROPERTIES@[17]@ == "virtual-channel-map"@);
}

} // verus!
