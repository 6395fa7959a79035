use rain_magic::{KnownMagic, MagicError};

const ALL_KINDS: [KnownMagic; 8] = [
    KnownMagic::RainMetaDocumentV1,
    KnownMagic::SolidityAbiV2,
    KnownMagic::OpMetaV1,
    KnownMagic::InterpreterCallerMetaV1,
    KnownMagic::AuthoringMetaV1,
    KnownMagic::DotrainV1,
    KnownMagic::RainlangV1,
    KnownMagic::ExpressionDeployerV2BytecodeV1,
];

#[test]
fn test_rain_meta_document_v1() {
    let magic_number = KnownMagic::RainMetaDocumentV1;
    let magic_number_after_prefix = magic_number.to_prefix_bytes();

    assert_eq!(hex::encode(magic_number_after_prefix), "ff0a89c674ee7874");
}

#[test]
fn test_solidity_abi_v2() {
    let magic_number = KnownMagic::SolidityAbiV2;
    let magic_number_after_prefix = magic_number.to_prefix_bytes();

    assert_eq!(hex::encode(magic_number_after_prefix), "ffe5ffb4a3ff2cde");
}

#[test]
fn test_op_meta_v1() {
    let magic_number = KnownMagic::OpMetaV1;
    let magic_number_after_prefix = magic_number.to_prefix_bytes();

    assert_eq!(hex::encode(magic_number_after_prefix), "ffe5282f43e495b4");
}

#[test]
fn test_interpreter_caller_meta_v1() {
    let magic_number = KnownMagic::InterpreterCallerMetaV1;
    let magic_number_after_prefix = magic_number.to_prefix_bytes();

    assert_eq!(hex::encode(magic_number_after_prefix), "ffc21bbf86cc199b");
}

#[test]
fn test_authoring_meta_v1() {
    let magic_number = KnownMagic::AuthoringMetaV1;
    let magic_number_after_prefix = magic_number.to_prefix_bytes();

    assert_eq!(hex::encode(magic_number_after_prefix), "ffe9e3a02ca8e235");
}

#[test]
fn test_dotrain_v1_prefix() {
    assert_eq!(
        hex::encode(KnownMagic::DotrainV1.to_prefix_bytes()),
        "ffdac2f2f37be894"
    );
}

#[test]
fn test_rainlang_v1_prefix() {
    assert_eq!(
        hex::encode(KnownMagic::RainlangV1.to_prefix_bytes()),
        "ff1c198cec3b48a7"
    );
}

#[test]
fn test_expression_deployer_v2_bytecode_v1_prefix() {
    assert_eq!(
        hex::encode(KnownMagic::ExpressionDeployerV2BytecodeV1.to_prefix_bytes()),
        "ffdb988a8cd04d32"
    );
}

#[test]
fn test_prefix_round_trip_every_kind() {
    for kind in ALL_KINDS {
        let prefix = kind.to_prefix_bytes();
        let value = u64::from_be_bytes(prefix);
        assert_eq!(KnownMagic::from_u64(value), Ok(kind));
        assert_eq!(KnownMagic::decode_prefix(&prefix), Ok(kind));
    }
}

#[test]
fn test_prefixes_pairwise_distinct() {
    for (i, a) in ALL_KINDS.iter().enumerate() {
        for (j, b) in ALL_KINDS.iter().enumerate() {
            if i != j {
                assert_ne!(a.to_prefix_bytes(), b.to_prefix_bytes());
            }
        }
    }
}

#[test]
fn test_every_prefix_leads_with_0xff() {
    for kind in ALL_KINDS {
        assert_eq!(kind.to_prefix_bytes()[0], 0xff);
    }
}

#[test]
fn test_name_round_trip_every_kind() {
    for kind in ALL_KINDS {
        assert_eq!(KnownMagic::name_to_kind(kind.display_name()), Ok(kind));
    }
}

#[test]
fn test_display_names() {
    assert_eq!(
        KnownMagic::RainMetaDocumentV1.display_name(),
        "rain-meta-document-v1"
    );
    assert_eq!(KnownMagic::SolidityAbiV2.display_name(), "solidity-abi-v2");
    assert_eq!(KnownMagic::OpMetaV1.display_name(), "op-meta-v1");
    assert_eq!(
        KnownMagic::InterpreterCallerMetaV1.display_name(),
        "interpreter-caller-meta-v1"
    );
    assert_eq!(
        KnownMagic::AuthoringMetaV1.display_name(),
        "authoring-meta-v1"
    );
    assert_eq!(KnownMagic::DotrainV1.display_name(), "dotrain-v1");
    assert_eq!(KnownMagic::RainlangV1.display_name(), "rainlang-v1");
    assert_eq!(
        KnownMagic::ExpressionDeployerV2BytecodeV1.display_name(),
        "expression-deployer-v2-bytecode-v1"
    );
}

#[test]
fn test_to_u64_values() {
    assert_eq!(KnownMagic::RainMetaDocumentV1.to_u64(), 0xff0a89c674ee7874);
    assert_eq!(KnownMagic::SolidityAbiV2.to_u64(), 0xffe5ffb4a3ff2cde);
    assert_eq!(KnownMagic::OpMetaV1.to_u64(), 0xffe5282f43e495b4);
    assert_eq!(
        KnownMagic::InterpreterCallerMetaV1.to_u64(),
        0xffc21bbf86cc199b
    );
    assert_eq!(KnownMagic::AuthoringMetaV1.to_u64(), 0xffe9e3a02ca8e235);
    assert_eq!(KnownMagic::DotrainV1.to_u64(), 0xffdac2f2f37be894);
    assert_eq!(KnownMagic::RainlangV1.to_u64(), 0xff1c198cec3b48a7);
    assert_eq!(
        KnownMagic::ExpressionDeployerV2BytecodeV1.to_u64(),
        0xffdb988a8cd04d32
    );
}

#[test]
fn test_unknown_magic_value_is_rejected() {
    assert_eq!(
        KnownMagic::from_u64(0x0000000000000000),
        Err(MagicError::UnknownMagic)
    );
    assert_eq!(
        KnownMagic::from_u64(0xffffffffffffffff),
        Err(MagicError::UnknownMagic)
    );
}

#[test]
fn test_short_input_is_insufficient_not_unknown() {
    let five_bytes = [0xff, 0x0a, 0x89, 0xc6, 0x74];
    assert_eq!(
        KnownMagic::decode_prefix(&five_bytes),
        Err(MagicError::InsufficientBytes)
    );
    assert_eq!(
        KnownMagic::decode_prefix(&[]),
        Err(MagicError::InsufficientBytes)
    );
}

#[test]
fn test_unknown_prefix_bytes_are_rejected() {
    let unknown = [0x00, 0x01, 0x02, 0x03, 0x04, 0x05, 0x06, 0x07];
    assert_eq!(
        KnownMagic::decode_prefix(&unknown),
        Err(MagicError::UnknownMagic)
    );
}

#[test]
fn test_decode_prefix_ignores_payload_after_magic() {
    let mut stream = KnownMagic::DotrainV1.to_prefix_bytes().to_vec();
    stream.extend_from_slice(b"payload that the registry never interprets");
    assert_eq!(KnownMagic::decode_prefix(&stream), Ok(KnownMagic::DotrainV1));
}

#[test]
fn test_unknown_name_is_rejected() {
    assert_eq!(
        KnownMagic::name_to_kind("no-such-kind"),
        Err(MagicError::UnknownMagicName)
    );
    assert_eq!(
        KnownMagic::name_to_kind(""),
        Err(MagicError::UnknownMagicName)
    );
    // Case matters: the canonical names are lowercase.
    assert_eq!(
        KnownMagic::name_to_kind("Op-Meta-V1"),
        Err(MagicError::UnknownMagicName)
    );
}
