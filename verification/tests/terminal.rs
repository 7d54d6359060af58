use kilo::terminal::{raw_modes, raw_modes_with, ModeBits, TerminalModes};

fn bits() -> ModeBits {
    ModeBits {
        brkint: 0x0002,
        icrnl: 0x0100,
        inpck: 0x0010,
        istrip: 0x0020,
        ixon: 0x0400,
        opost: 0x0001,
        cs8: 0x0030,
        echo: 0x0008,
        icanon: 0x0002,
        iexten: 0x8000,
        isig: 0x0001,
    }
}

#[test]
fn raw_modes_clear_and_set_the_named_flags() {
    let original = TerminalModes {
        input: 0x6d02,
        output: 0x0005,
        control: 0x04bf,
        local: 0x8a3b,
        min_bytes: 1,
        timeout: 0,
    };
    let raw = raw_modes_with(original, bits());
    assert_eq!(
        raw,
        TerminalModes {
            input: 0x6800,
            output: 0x0004,
            control: 0x04bf,
            local: 0x0a30,
            min_bytes: 0,
            timeout: 1,
        }
    );
}

#[test]
fn raw_modes_of_nothing_and_of_everything() {
    let none = TerminalModes {
        input: 0,
        output: 0,
        control: 0,
        local: 0,
        min_bytes: 0,
        timeout: 0,
    };
    assert_eq!(
        raw_modes_with(none, bits()),
        TerminalModes {
            control: 0x0030,
            timeout: 1,
            ..none
        }
    );
    let all = TerminalModes {
        input: u64::MAX,
        output: u64::MAX,
        control: u64::MAX,
        local: u64::MAX,
        min_bytes: 255,
        timeout: 255,
    };
    assert_eq!(
        raw_modes_with(all, bits()),
        TerminalModes {
            input: !0x0532,
            output: !0x0001,
            control: u64::MAX,
            local: !0x800b,
            min_bytes: 0,
            timeout: 1,
        }
    );
}

#[test]
fn raw_modes_twice_are_raw_modes() {
    let original = TerminalModes {
        input: 0x1234_5678,
        output: 0xffff,
        control: 0x0f0f,
        local: 0xabcd,
        min_bytes: 7,
        timeout: 9,
    };
    let once = raw_modes_with(original, bits());
    assert_eq!(raw_modes_with(once, bits()), once);
}

#[test]
fn raw_modes_of_this_platform() {
    let all = TerminalModes {
        input: u64::MAX,
        output: u64::MAX,
        control: 0,
        local: u64::MAX,
        min_bytes: 1,
        timeout: 0,
    };
    let raw = raw_modes(all);
    let input_off = [
        termios::BRKINT,
        termios::ICRNL,
        termios::INPCK,
        termios::ISTRIP,
        termios::IXON,
    ];
    let local_off = [termios::ECHO, termios::ICANON, termios::IEXTEN, termios::ISIG];
    let mut input = u64::MAX;
    for bit in input_off {
        assert_eq!(raw.input & bit as u64, 0);
        input &= !(bit as u64);
    }
    let mut local = u64::MAX;
    for bit in local_off {
        assert_eq!(raw.local & bit as u64, 0);
        local &= !(bit as u64);
    }
    assert_eq!(raw.input, input);
    assert_eq!(raw.local, local);
    assert_eq!(raw.output, !(termios::OPOST as u64));
    assert_eq!(raw.control, termios::CS8 as u64);
    assert_eq!((raw.min_bytes, raw.timeout), (0, 1));
}
