use sensor_net::serial_config::{describe_failure, raw_8n1, SetupStep, TermFlagBits, TermFlags};

fn linux_bits() -> TermFlagBits {
    TermFlagBits {
        parenb: 0o400,
        cstopb: 0o100,
        csize: 0o60,
        cs8: 0o60,
        crtscts: 0o20000000000,
        clocal: 0o4000,
        cread: 0o200,
        icanon: 0o2,
        echo: 0o10,
        echoe: 0o20,
        isig: 0o1,
        opost: 0o1,
    }
}

#[test]
fn raw_mode_sets_8n1_and_clears_processing() {
    let bits = linux_bits();
    let before = TermFlags { control: 0o20000000000 | 0o400 | 0o100 | 0o20 | 0o7, local: 0o33 | 0o100000, output: 0o5 };
    let after = raw_8n1(before, bits);
    assert_eq!(after.control, 0o60 | 0o4000 | 0o200 | 0o7);
    assert_eq!(after.local, 0o100000);
    assert_eq!(after.output, 0o4);
}

#[test]
fn setup_failures_are_described() {
    assert_eq!(describe_failure(SetupStep::Open, 2), "could not open device; error: 2");
    assert_eq!(describe_failure(SetupStep::SetStatusFlags, -1), "could not set file status flag; error: -1");
    assert_eq!(describe_failure(SetupStep::GetOptions, 25), "could not get options; error: 25");
}
