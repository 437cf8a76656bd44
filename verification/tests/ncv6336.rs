use ds90ub954::error::{BusFault, Error};
use ds90ub954::ncv6336::Ncv6336;
use ds90ub954::regmap::RegUpdate;
use ds90ub954::regulator::{Desc, Mode, Status, Type};

fn update(reg: u32, mask: u32, value: u32) -> RegUpdate {
    RegUpdate { reg, mask, value, force: false }
}

#[test]
fn buck_modes() {
    let chip = Ncv6336::new();
    assert_eq!(chip.set_mode(Mode::Normal), Ok(update(0x14, 0x80, 0x00)));
    assert_eq!(chip.set_mode(Mode::Fast), Ok(update(0x14, 0x80, 0x80)));
    for mode in [Mode::Invalid, Mode::Idle, Mode::Standby] {
        assert_eq!(chip.set_mode(mode), Err(Error::NotSupported));
        assert_eq!(chip.set_suspend_mode(mode), Err(Error::NotSupported));
    }
    assert_eq!(chip.set_suspend_mode(Mode::Normal), Ok(update(0x14, 0x40, 0x00)));
    assert_eq!(chip.set_suspend_mode(Mode::Fast), Ok(update(0x14, 0x40, 0x40)));
    assert_eq!(chip.get_mode(Ok(0x80)), Mode::Fast);
    assert_eq!(chip.get_mode(Ok(0xff)), Mode::Fast);
    assert_eq!(chip.get_mode(Ok(0x7f)), Mode::Normal);
    assert_eq!(chip.get_mode(Ok(0)), Mode::Normal);
    assert_eq!(chip.get_mode(Err(BusFault { errno: 5 })), Mode::Invalid);
}

#[test]
fn buck_status() {
    let chip = Ncv6336::new();
    assert_eq!(chip.get_status(Ok(false), Mode::Fast), Ok(Status::Off));
    assert_eq!(chip.get_status(Ok(true), Mode::Fast), Ok(Status::Fast));
    assert_eq!(chip.get_status(Ok(true), Mode::Normal), Ok(Status::Normal));
    assert_eq!(chip.get_status(Ok(true), Mode::Invalid), Ok(Status::Undefined));
    let error = Error::Transport { register: 0x11, errno: 5 };
    assert_eq!(chip.get_status(Err(error), Mode::Normal), Err(error));
    assert!(chip.status_needs_mode(&Ok(true)));
    assert!(!chip.status_needs_mode(&Ok(false)));
    assert!(!chip.status_needs_mode(&Err(error)));
}

#[test]
fn buck_suspend_voltage() {
    let chip = Ncv6336::new();
    assert_eq!(chip.set_suspend_voltage(600_000), Ok(update(0x10, 0x7f, 0)));
    assert_eq!(chip.set_suspend_voltage(600_001), Ok(update(0x10, 0x7f, 1)));
    assert_eq!(chip.set_suspend_voltage(606_250), Ok(update(0x10, 0x7f, 1)));
    assert_eq!(chip.set_suspend_voltage(606_251), Ok(update(0x10, 0x7f, 2)));
    assert_eq!(chip.set_suspend_voltage(1_000_000), Ok(update(0x10, 0x7f, 64)));
    assert_eq!(chip.set_suspend_voltage(1_393_750), Ok(update(0x10, 0x7f, 127)));
    assert_eq!(chip.set_suspend_voltage(1_393_751), Err(Error::InvalidArgument));
    assert_eq!(chip.set_suspend_voltage(599_999), Err(Error::InvalidArgument));
    assert_eq!(chip.set_suspend_voltage(0), Err(Error::InvalidArgument));
    assert_eq!(chip.set_suspend_voltage(i32::MIN), Err(Error::InvalidArgument));
    assert_eq!(chip.set_suspend_voltage(i32::MAX), Err(Error::InvalidArgument));
}

#[test]
fn buck_suspend_switch() {
    let chip = Ncv6336::new();
    assert_eq!(chip.set_suspend_enable(), [update(0x10, 0x80, 0x80), update(0x14, 0x01, 0x00)]);
    assert_eq!(chip.set_suspend_disable(), [update(0x10, 0x80, 0x00), update(0x14, 0x01, 0x01)]);
}

#[test]
fn buck_description() {
    let desc = Ncv6336::new().desc();
    assert_eq!(desc.name, "ncv6336");
    assert_eq!(desc.of_match, Some("buck"));
    assert_eq!(desc.reg_type, Type::Voltage);
    assert_eq!((desc.enable_reg, desc.enable_mask, desc.enable_val, desc.disable_val), (0x11, 0x80, 0x80, 0));
    assert!(!desc.enable_is_inverted);
    assert_eq!(
        (
            desc.active_discharge_reg,
            desc.active_discharge_mask,
            desc.active_discharge_on,
            desc.active_discharge_off
        ),
        (0x12, 0x10, 0x10, 0)
    );
    assert_eq!((desc.csel_reg, desc.csel_mask), (0x16, 0xc0));
    assert_eq!((desc.vsel_reg, desc.vsel_mask), (0x11, 0x7f));
    assert_eq!((desc.min_uv, desc.uv_step, desc.n_voltages, desc.linear_min_sel), (600_000, 6250, 128, 0));
}

#[test]
fn regulator_descriptions() {
    let desc = Desc::new("limit", Type::Current);
    assert_eq!(desc.name, "limit");
    assert_eq!(desc.of_match, None);
    assert_eq!(desc.reg_type, Type::Current);
    assert_eq!(desc.enable_mask, 0);
    assert_eq!(desc.with_of_match("ldo1").of_match, Some("ldo1"));
    let desc = desc.with_inverted_enable(1, 2, 3, 4);
    assert!(desc.enable_is_inverted);
    assert_eq!((desc.enable_reg, desc.enable_mask, desc.enable_val, desc.disable_val), (1, 2, 3, 4));
    let desc = desc.with_enable(5, 6, 7, 8);
    assert!(desc.enable_is_inverted);
    assert_eq!((desc.enable_reg, desc.enable_mask, desc.enable_val, desc.disable_val), (5, 6, 7, 8));
    let desc = desc.with_csel(9, 10).with_active_discharge(11, 12, 13, 14);
    assert_eq!((desc.csel_reg, desc.csel_mask), (9, 10));
    assert_eq!(desc.active_discharge_off, 14);
    let desc = desc.with_linear_mapping(15, 16, 17, 18, 19, 20);
    assert_eq!((desc.vsel_reg, desc.vsel_mask, desc.min_uv, desc.uv_step), (15, 16, 17, 18));
    assert_eq!((desc.n_voltages, desc.linear_min_sel), (19, 20));
    assert_eq!(desc.reg_type, Type::Current);
}
