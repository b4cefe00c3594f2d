//! The tagged-enum decoders: raw reads always succeed, decoding either
//! recognises the value or hands the raw integer back, and the round
//! trip through the raw bytes is lossless.

use quack::elf::parse::ffi_types::{
    EIClass, EIClassUnchecked, EIData, EIDataUnchecked, EIOsAbi, EIOsAbiUnchecked,
    EMachineUnchecked, ETypeUnchecked, EType, PType, PTypeUnchecked, ShType, ShTypeUnchecked,
};
use quack::utils::ToKnown;

#[test]
fn enum_impls_miri_enum() {
    for i in 0..0xFFu8 {
        let ei_osabi = EIOsAbiUnchecked { raw: i };
        assert_eq!(i, ei_osabi.unknown());
        match ei_osabi.known() {
            Ok(o) => assert_eq!(o.raw(), i),
            Err(e) => assert_eq!(e, i),
        }
    }
    for i in 0..0x01FFu16 {
        let e_type = ETypeUnchecked { raw: i };
        assert_eq!(i, e_type.unknown());
        match e_type.known() {
            Ok(o) => assert_eq!(o.raw(), i),
            Err(e) => assert_eq!(e, i),
        }
    }
    for i in 0..0x01FFu16 {
        let e_machine = EMachineUnchecked { raw: i };
        assert_eq!(i, e_machine.unknown());
        match e_machine.known() {
            Ok(o) => assert_eq!(o.raw(), i),
            Err(e) => assert_eq!(e, i),
        }
    }
    for i in 0..0x01FFu32 {
        let p_type = PTypeUnchecked { raw: i };
        assert_eq!(i, p_type.unknown());
        match p_type.known() {
            Ok(o) => assert_eq!(o.raw(), i),
            Err(e) => assert_eq!(e, i),
        }
    }
    for i in 0..0x01FFu32 {
        let sh_type = ShTypeUnchecked { raw: i };
        assert_eq!(i, sh_type.unknown());
        match sh_type.known() {
            Ok(o) => assert_eq!(o.raw(), i),
            Err(e) => assert_eq!(e, i),
        }
    }
}

#[test]
fn ffi_types_miri_enum() {
    let ei_osabi = EIOsAbiUnchecked { raw: 0xFF };
    println!("{:?}", ei_osabi);
    println!("{}", ei_osabi.describe());
}

#[test]
fn enum_roundtrip_inclusive() {
    for i in 0..=0xFFu8 {
        let x = EIOsAbiUnchecked { raw: i };
        assert_eq!(x.unknown(), i);
        if let Ok(o) = x.known() {
            assert_eq!(o.raw(), i);
        }
        let c = EIClassUnchecked { raw: i };
        if let Ok(o) = c.known() {
            assert_eq!(o.raw(), i);
        } else {
            assert_eq!(c.known().unwrap_err(), i);
        }
        let d = EIDataUnchecked { raw: i };
        if let Ok(o) = d.known() {
            assert_eq!(o.raw(), i);
        } else {
            assert_eq!(d.known().unwrap_err(), i);
        }
    }
    for i in 0..=0x01FFu16 {
        let t = ETypeUnchecked { raw: i };
        if let Ok(o) = t.known() {
            assert_eq!(o.raw(), i);
        } else {
            assert_eq!(t.known().unwrap_err(), i);
        }
        let m = EMachineUnchecked { raw: i };
        if let Ok(o) = m.known() {
            assert_eq!(o.raw(), i);
        } else {
            assert_eq!(m.known().unwrap_err(), i);
        }
    }
}

#[test]
fn recognised_value_sets() {
    assert_eq!(EIClassUnchecked { raw: 0x01 }.known(), Ok(EIClass::Elf32Bit));
    assert_eq!(EIClassUnchecked { raw: 0x02 }.known(), Ok(EIClass::Elf64Bit));
    assert_eq!(EIClassUnchecked { raw: 0x03 }.known(), Err(0x03));
    assert_eq!(EIDataUnchecked { raw: 0x01 }.known(), Ok(EIData::LittleEndian));
    assert_eq!(EIDataUnchecked { raw: 0x02 }.known(), Ok(EIData::BigEndian));
    assert_eq!(EIOsAbiUnchecked { raw: 0x00 }.known(), Ok(EIOsAbi::SystemV));
    assert_eq!(EIOsAbiUnchecked { raw: 0x03 }.known(), Ok(EIOsAbi::Linux));
    assert_eq!(EIOsAbiUnchecked { raw: 0x01 }.known(), Err(0x01));
    assert_eq!(ETypeUnchecked { raw: 0x02 }.known(), Ok(EType::Exec));
    assert_eq!(ETypeUnchecked { raw: 0x05 }.known(), Err(0x05));
    assert_eq!(PTypeUnchecked { raw: 0x6474e550 }.known(), Ok(PType::GnuEhFrame));
    assert_eq!(PTypeUnchecked { raw: 0x08 }.known(), Err(0x08));
    assert_eq!(ShTypeUnchecked { raw: 0x0B }.known(), Ok(ShType::Dynsym));
    assert_eq!(ShTypeUnchecked { raw: 0x0C }.known(), Err(0x0C));
    assert_eq!(ShTypeUnchecked { raw: 0x0E }.known(), Ok(ShType::InitArray));
    assert_eq!(ShTypeUnchecked { raw: 0x13 }.known(), Ok(ShType::Num));
    assert_eq!(ShTypeUnchecked { raw: 0x14 }.known(), Err(0x14));
    assert_eq!(ShTypeUnchecked { raw: 0x6FFFFFF6 }.known(), Ok(ShType::GnuHash));
    assert_eq!(ShTypeUnchecked { raw: 0x6FFFFFFF }.known(), Ok(ShType::GnuVersym));
}

#[test]
fn describe_renders_known_and_unknown() {
    assert_eq!(EIOsAbiUnchecked { raw: 0x00 }.describe(), "SystemV");
    assert_eq!(EIOsAbiUnchecked { raw: 0x03 }.describe(), "Linux");
    assert_eq!(EIOsAbiUnchecked { raw: 0xFF }.describe(), "UnknownEIOsAbi(0xFF)");
    assert_eq!(EMachineUnchecked { raw: 0x3E }.describe(), "X86_64");
    assert_eq!(EMachineUnchecked { raw: 0x1FF }.describe(), "UnknownEMachine(0x1FF)");
    assert_eq!(ShTypeUnchecked { raw: 0x0C }.describe(), "UnknownShType(0xC)");
    assert_eq!(PTypeUnchecked { raw: 0 }.describe(), "Null");
    assert_eq!(EIClassUnchecked { raw: 0 }.describe(), "UnknownEIClass(0x0)");
}
