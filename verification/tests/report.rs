use universal_deployer::address::Address;
use universal_deployer::opt::AddressGenerationConfig;
use universal_deployer::report::FindResult;
use universal_deployer::scalar::Scalar;
use universal_deployer::sig::{generate_signature, sig_r, Signature, SignatureResult};
use universal_deployer::tx::UnsignedTransaction;

fn sample() -> SignatureResult {
    SignatureResult {
        sig: Signature { r: sig_r(), s: Scalar::from_u64(1), v: 27 },
        contract: Address([
            0xcc, 0x12, 0xac, 0xf3, 0xbf, 0x82, 0x4f, 0xbb, 0x0d, 0x4a, 0xdc, 0x53, 0x08, 0x52,
            0x5d, 0x50, 0x5f, 0x8a, 0x0d, 0x79,
        ]),
        deployer: Address([
            0xd7, 0xe3, 0x92, 0x76, 0x95, 0xfc, 0xf7, 0x96, 0x05, 0xba, 0x15, 0x78, 0xa1, 0x3c,
            0xeb, 0x15, 0x8c, 0xa2, 0x75, 0xf6,
        ]),
    }
}

fn sample_text() -> String {
    format!(
        "Sig: 1f{}{}011b\nContract: 0xcc12acf3bf824fbb0d4adc5308525d505f8a0d79\nDeployer: 0xd7e3927695fcf79605ba1578a13ceb158ca275f6",
        "ff".repeat(31),
        "00".repeat(31)
    )
}

#[test]
fn signature_result_text_has_three_lines() {
    assert_eq!(sample().to_text(), sample_text());
}

#[test]
fn signature_result_text_of_a_candidate() {
    let tx = UnsignedTransaction {
        from: None,
        to: None,
        gas: Some(Scalar::from_u64(3)),
        gas_price: Some(Scalar::from_u64(2)),
        value: None,
        data: Some(vec![7, 7, 7, 7]),
        nonce: Some(Scalar::zero()),
        chain_id: None,
    };
    let candidate = generate_signature(&tx, Scalar::from_u64(1)).unwrap();
    assert_eq!(candidate, sample());
    assert_eq!(candidate.to_text(), sample_text());
}

#[test]
fn config_text_leaves_out_what_is_not_asked() {
    let bare = AddressGenerationConfig {
        prefix: None,
        num_zero_bytes: 0,
        s_start: Scalar::from_u64(1),
    };
    assert_eq!(bare.to_text(), "\nAddress Generation Config\n\t- S start: 1");
    let prefix = AddressGenerationConfig {
        prefix: Some("0000".to_string()),
        num_zero_bytes: 0,
        s_start: Scalar::from_u64(255),
    };
    assert_eq!(
        prefix.to_text(),
        "\nAddress Generation Config\n\t- Prefix: 0000\n\t- S start: 255"
    );
    let zeros = AddressGenerationConfig {
        prefix: None,
        num_zero_bytes: 12,
        s_start: Scalar::zero(),
    };
    assert_eq!(
        zeros.to_text(),
        "\nAddress Generation Config\n\t- Min zero bytes: 12\n\t- S start: 0"
    );
}

#[test]
fn config_text_with_both() {
    let both = AddressGenerationConfig {
        prefix: Some("abc".to_string()),
        num_zero_bytes: 4,
        s_start: Scalar { limbs: [0, 1, 0, 0] },
    };
    assert_eq!(
        both.to_text(),
        "\nAddress Generation Config\n\t- Prefix: abc\n\t- Min zero bytes: 4\n\t- S start: 18446744073709551616"
    );
}

#[test]
fn find_result_text_is_the_whole_report() {
    let result = FindResult {
        info: sample(),
        tx_raw: vec![0xf8, 0x00, 0x1b],
        tx_cost: Scalar::from_u64(100_000_000_000_000_000),
    };
    let expected = format!(
        "\n==== Info ====\n{}\n\n==== Raw Tx ====\n0xf8001b\n\nSend exactly 100000000000000000 native tokens to the deployer address",
        sample_text()
    );
    assert_eq!(result.to_text(), expected);
}
