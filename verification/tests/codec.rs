use byteorder::{ByteOrder, LittleEndian};
use gdb_stub::errors::AdapterError;
use gdb_stub::regs::{
    decode_one, encode_one, Bpf, BpfBreakpointKind, BpfRegId, BpfRegs, GP_REG_COUNT,
    REG_ID_LIMIT, SERIALIZED_REG_LEN,
};

fn sample_regs() -> BpfRegs {
    BpfRegs {
        regs: [
            0x0807060504030201,
            1,
            2,
            u64::MAX,
            0,
            0xdeadbeef,
            42,
            7,
            0x1234567890abcdef,
            9,
            10,
        ],
        pc: 0x0000000000401000,
    }
}

#[test]
fn serialize_has_fixed_width() {
    let out = sample_regs().gdb_serialize();
    assert_eq!(out.len(), SERIALIZED_REG_LEN);
    assert_eq!(SERIALIZED_REG_LEN, (GP_REG_COUNT + 1) * 8);
}

#[test]
fn serialize_is_little_endian_positional() {
    let out = sample_regs().gdb_serialize();
    // First register, least-significant byte first.
    assert_eq!(&out[0..8], &[1, 2, 3, 4, 5, 6, 7, 8]);
    // Program counter last.
    assert_eq!(&out[88..96], &[0x00, 0x10, 0x40, 0, 0, 0, 0, 0]);
}

#[test]
fn serialize_matches_reference_little_endian() {
    let r = sample_regs();
    let out = r.gdb_serialize();
    for i in 0..GP_REG_COUNT {
        assert_eq!(LittleEndian::read_u64(&out[i * 8..i * 8 + 8]), r.regs[i]);
    }
    assert_eq!(LittleEndian::read_u64(&out[88..96]), r.pc);
}

#[test]
fn deserialize_restores_exactly() {
    let r = sample_regs();
    let out = r.gdb_serialize();
    let mut decoded = BpfRegs::default();
    assert!(decoded.gdb_deserialize(&out).is_ok());
    assert_eq!(decoded, r);
}

#[test]
fn short_input_is_rejected_without_mutation() {
    let r = sample_regs();
    let out = r.gdb_serialize();
    let mut target = sample_regs();
    target.pc = 77;
    let before = target;
    let res = target.gdb_deserialize(&out[..SERIALIZED_REG_LEN - 1]);
    assert_eq!(res, Err(AdapterError::MalformedRegisterData));
    assert_eq!(target, before);
}

#[test]
fn long_input_is_rejected_without_mutation() {
    let mut out = sample_regs().gdb_serialize();
    out.push(0);
    let mut target = BpfRegs::default();
    let res = target.gdb_deserialize(&out);
    assert_eq!(res, Err(AdapterError::MalformedRegisterData));
    assert_eq!(target, BpfRegs::default());
}

#[test]
fn empty_input_is_rejected() {
    let mut target = BpfRegs::default();
    assert_eq!(
        target.gdb_deserialize(&[]),
        Err(AdapterError::MalformedRegisterData)
    );
}

#[test]
fn single_register_round_trip() {
    let bytes = encode_one(0xfeedface00c0ffee);
    assert_eq!(bytes.len(), 8);
    assert_eq!(LittleEndian::read_u64(&bytes), 0xfeedface00c0ffee);
    assert_eq!(decode_one(&bytes), Ok(0xfeedface00c0ffee));
}

#[test]
fn single_register_wrong_width_is_malformed() {
    assert_eq!(
        decode_one(&[1, 2, 3]),
        Err(AdapterError::MalformedRegisterData)
    );
    assert_eq!(
        decode_one(&[0; 9]),
        Err(AdapterError::MalformedRegisterData)
    );
}

#[test]
fn pc_accessor() {
    assert_eq!(sample_regs().pc(), 0x401000);
}

#[test]
fn reg_id_range() {
    for id in 0..REG_ID_LIMIT {
        let parsed = BpfRegId::from_raw_id(id);
        assert!(parsed.is_some());
        let (rid, size) = parsed.unwrap();
        assert_eq!(rid.raw(), id as u8);
        assert_eq!(size, 64);
    }
    assert!(BpfRegId::from_raw_id(REG_ID_LIMIT).is_none());
    assert!(BpfRegId::from_raw_id(usize::MAX).is_none());
}

#[test]
fn breakpoint_kind_parsing() {
    assert!(matches!(
        BpfBreakpointKind::from_usize(0),
        Some(BpfBreakpointKind::BpfBpKindBrkpt)
    ));
    assert!(BpfBreakpointKind::from_usize(1).is_none());
    assert!(BpfBreakpointKind::from_usize(usize::MAX).is_none());
}

#[test]
fn target_description_names_the_architecture() {
    let xml = Bpf::target_description_xml();
    assert!(xml.is_some());
    assert!(xml.unwrap().contains("bpf"));
}
