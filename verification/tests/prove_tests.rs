use paylink::clock::current_timestamp;
use paylink::clock::millis_to_timestamp;
use paylink::clock::reading_to_timestamp;
use paylink::codec::hex_to_element;
use paylink::codec::DecodeError;
use paylink::element::Element;
use paylink::error::ApiError;
use paylink::error::ErrorKind;
use paylink::error::LinkError;
use paylink::notes::InputNoteRequest;
use paylink::prove::commitment_note;
use paylink::prove::decode_commitments;
use paylink::prove::default_faucet_amount;
use paylink::prove::derive_address_key;
use paylink::prove::derive_address_response;
use paylink::prove::encode_path;
use paylink::prove::engine_failure;
use paylink::prove::faucet_note;
use paylink::prove::faucet_response;
use paylink::prove::field_error;
use paylink::prove::generate_psi;
use paylink::prove::merkle_path_info;
use paylink::prove::merkle_paths_for_notes;
use paylink::prove::merkle_paths_response;
use paylink::prove::prove_transfer;
use paylink::prove::psi_text;
use paylink::prove::CommitmentRequest;
use paylink::prove::DeriveAddressRequest;
use paylink::prove::FaucetRequest;
use paylink::prove::MerklePathsRequest;
use paylink::transfer::InputSlot;
use paylink::transfer::ProveTransferRequest;
use paylink::transfer::TransactionKind;

fn hex_byte(byte: u8) -> String {
    format!("0x{}", format!("{:02x}", byte).repeat(32))
}

#[test]
fn prove_transfer_builds_the_engine_request() {
    let req = ProveTransferRequest {
        secret_key: hex_byte(1),
        inputs: vec![InputNoteRequest {
            address: hex_byte(2),
            psi: hex_byte(3),
            value: hex_byte(4),
            token: "USDC".to_string(),
            source: hex_byte(5),
            merkle_path: vec![hex_byte(6)],
        }],
        outputs: vec![],
        merkle_root: hex_byte(7),
        kind: None,
    };
    let built = prove_transfer(&req).unwrap();
    assert_eq!(built.kind, TransactionKind::Burn);
    assert_eq!(built.root.to_be_bytes(), [7; 32]);
    assert!(matches!(built.inputs[0], InputSlot::Spend(_)));
    assert!(matches!(built.inputs[1], InputSlot::Padding));
}

#[test]
fn prove_transfer_reports_bad_text_as_validation_error() {
    let req = ProveTransferRequest {
        secret_key: hex_byte(1),
        inputs: vec![],
        outputs: vec![],
        merkle_root: "0x00".to_string(),
        kind: None,
    };
    let report = prove_transfer(&req).err().unwrap();
    assert_eq!(report.kind, ErrorKind::Validation);
    assert_eq!(report.status, 400);
    assert_eq!(report.message, "merkle_root: Expected 32 bytes, got 1");
}

#[test]
fn engine_failure_is_internal_and_generic() {
    let report = engine_failure();
    assert_eq!(report.kind, ErrorKind::Engine);
    assert_eq!(report.status, 500);
    assert_eq!(report.message, "Internal server error");
}

#[test]
fn api_error_from_link_error() {
    let report = ApiError::from_link_error(LinkError::NotRecipient);
    assert_eq!(report.kind, ErrorKind::Authorization);
    assert_eq!(report.status, 403);
    assert_eq!(report.message, "Only the creator can cancel this payment link");
    let report = field_error("psi", DecodeError::WrongLength { bytes: 3 });
    assert_eq!(report.kind, ErrorKind::Validation);
    assert_eq!(report.status, 400);
    assert_eq!(report.message, "psi: Expected 32 bytes, got 3");
}

#[test]
fn derive_address_reads_key_and_writes_address() {
    let key = derive_address_key(&DeriveAddressRequest { secret_key: hex_byte(0x42) }).unwrap();
    assert_eq!(key.to_be_bytes(), [0x42; 32]);
    let report = derive_address_key(&DeriveAddressRequest { secret_key: "0x4".to_string() })
        .err()
        .unwrap();
    assert_eq!(report.status, 400);
    assert_eq!(report.message, "secret_key: Invalid hex string: Odd number of digits, got 1");
    let response = derive_address_response(Element::from_be_bytes([0xC3; 32]));
    assert_eq!(response.address, hex_byte(0xC3));
}

#[test]
fn psi_is_element_text() {
    let text = generate_psi();
    assert_eq!(text.len(), 66);
    assert!(text.starts_with("0x"));
    let element = hex_to_element(&text).unwrap();
    assert_eq!(psi_text(element.to_be_bytes()), text);
    assert_eq!(psi_text([0xAB; 32]), hex_byte(0xAB));
}

#[test]
fn psi_is_drawn_afresh() {
    let draws: Vec<String> = (0..4).map(|_| generate_psi()).collect();
    assert!(draws.iter().any(|d| *d != draws[0]));
    assert!(draws.iter().any(|d| *d != format!("0x{}", "0".repeat(64))));
}

#[test]
fn commitment_note_is_read_or_reported() {
    let req = CommitmentRequest {
        address: hex_byte(1),
        psi: hex_byte(2),
        value: hex_byte(3),
        token: "USDC".to_string(),
        source: hex_byte(4),
    };
    let note = commitment_note(&req).unwrap();
    assert_eq!(note.address.to_be_bytes(), [1; 32]);
    assert_eq!(note.source.to_be_bytes(), [4; 32]);
    assert_eq!(note.token, "USDC");
    let bad = CommitmentRequest { value: "0xzz".to_string(), ..req };
    let report = commitment_note(&bad).err().unwrap();
    assert_eq!(report.kind, ErrorKind::Validation);
    assert_eq!(report.message, "value: Expected 32 bytes, got 1");
    let bad_digit = CommitmentRequest {
        address: hex_byte(1),
        psi: format!("0x{}x", "0".repeat(63)),
        value: hex_byte(3),
        token: "USDC".to_string(),
        source: hex_byte(4),
    };
    let report = commitment_note(&bad_digit).err().unwrap();
    assert_eq!(report.status, 400);
    assert_eq!(report.message, "psi: Invalid hex string: Invalid character 'x' at position 63");
}

#[test]
fn faucet_amount_and_note() {
    assert_eq!(default_faucet_amount(), 100_000_000);
    let (address, value) =
        faucet_note(&FaucetRequest { address: hex_byte(9), amount: 258 }).unwrap();
    assert_eq!(address.to_be_bytes(), [9; 32]);
    let mut expected = [0u8; 32];
    expected[30] = 1;
    expected[31] = 2;
    assert_eq!(value.to_be_bytes(), expected);
    let report = faucet_note(&FaucetRequest { address: "09".to_string(), amount: 1 }).err().unwrap();
    assert_eq!(report.status, 400);
    assert_eq!(report.message, "address: Expected 32 bytes, got 1");

    let response = faucet_response(
        258,
        address,
        Element::from_be_bytes([7; 32]),
        value,
        Element::from_be_bytes([8; 32]),
    );
    assert!(response.success);
    assert_eq!(response.amount, 258);
    assert_eq!(response.note.address, hex_byte(9));
    assert_eq!(response.note.psi, hex_byte(7));
    assert_eq!(
        response.note.value,
        "0x0000000000000000000000000000000000000000000000000000000000000102"
    );
    assert_eq!(response.note.commitment, hex_byte(8));
}

#[test]
fn commitments_are_decoded_in_order() {
    let req = MerklePathsRequest { commitments: vec![hex_byte(1), hex_byte(2)] };
    let elements = decode_commitments(&req).unwrap();
    assert_eq!(elements.len(), 2);
    assert_eq!(elements[0].to_be_bytes(), [1; 32]);
    assert_eq!(elements[1].to_be_bytes(), [2; 32]);
    assert_eq!(decode_commitments(&MerklePathsRequest { commitments: vec![] }).unwrap().len(), 0);
    let bad = MerklePathsRequest {
        commitments: vec![hex_byte(1), "0x12".to_string(), "zz".to_string()],
    };
    let report = decode_commitments(&bad).err().unwrap();
    assert_eq!(report.kind, ErrorKind::Validation);
    assert_eq!(report.status, 400);
    assert_eq!(report.message, "commitments[1]: Expected 32 bytes, got 1");
}

#[test]
fn merkle_path_info_from_lookup() {
    let a = Element::from_be_bytes([0xA0; 32]);
    let b = Element::from_be_bytes([0xB0; 32]);
    let found = merkle_path_info("0xabc", &Some(vec![vec![a, b], vec![b]]));
    assert!(found.found);
    assert_eq!(found.commitment, "0xabc");
    assert_eq!(found.path, vec![hex_byte(0xA0), hex_byte(0xB0)]);

    for lookup in [None, Some(vec![]), Some(vec![vec![]]), Some(vec![vec![], vec![a]])] {
        let missing = merkle_path_info("c", &lookup);
        assert!(!missing.found);
        assert_eq!(missing.commitment, "c");
        assert!(missing.path.is_empty());
    }
    assert_eq!(encode_path(&vec![b, a]), vec![hex_byte(0xB0), hex_byte(0xA0)]);
}

#[test]
fn merkle_paths_response_carries_root_and_paths() {
    let info = merkle_path_info("c", &None);
    let response = merkle_paths_response(Element::from_be_bytes([0x0F; 32]), vec![info]);
    assert_eq!(response.root, hex_byte(0x0F));
    assert_eq!(response.paths.len(), 1);
    assert_eq!(response.paths[0].commitment, "c");
}

#[test]
fn clock_reads_milliseconds_since_the_epoch() {
    let first = current_timestamp();
    // Later than the first of January 2020, and not yet in the year 3000.
    assert!(first > 1_577_836_800_000);
    assert!(first < 32_503_680_000_000);
    assert_eq!(millis_to_timestamp(0), 0);
    assert_eq!(millis_to_timestamp(1_700_000_000_123), 1_700_000_000_123);
    assert_eq!(millis_to_timestamp(u64::MAX as u128), u64::MAX);
    assert_eq!(millis_to_timestamp(u64::MAX as u128 + 1), u64::MAX);
    assert_eq!(millis_to_timestamp(u128::MAX), u64::MAX);
}

#[test]
fn clock_before_the_epoch_reads_zero() {
    assert_eq!(reading_to_timestamp(None), 0);
    assert_eq!(reading_to_timestamp(Some(0)), 0);
    assert_eq!(reading_to_timestamp(Some(1_700_000_000_123)), 1_700_000_000_123);
    assert_eq!(reading_to_timestamp(Some(u128::MAX)), u64::MAX);
}

#[test]
fn merkle_paths_answer_has_one_entry_per_commitment() {
    let a = Element::from_be_bytes([0xA0; 32]);
    let b = Element::from_be_bytes([0xB0; 32]);
    let req = MerklePathsRequest {
        commitments: vec![hex_byte(1), hex_byte(2), hex_byte(3), hex_byte(4)],
    };
    let lookups = vec![Some(vec![vec![a, b]]), None, Some(vec![vec![]]), Some(vec![vec![b]])];
    let response = merkle_paths_for_notes(&req, Element::from_be_bytes([0x0F; 32]), &lookups);
    assert_eq!(response.root, hex_byte(0x0F));
    assert_eq!(response.paths.len(), 4);
    let commitments: Vec<String> = response.paths.iter().map(|p| p.commitment.clone()).collect();
    assert_eq!(commitments, req.commitments);
    let found: Vec<bool> = response.paths.iter().map(|p| p.found).collect();
    assert_eq!(found, vec![true, false, false, true]);
    assert_eq!(response.paths[0].path, vec![hex_byte(0xA0), hex_byte(0xB0)]);
    assert!(response.paths[1].path.is_empty());
    assert!(response.paths[2].path.is_empty());
    assert_eq!(response.paths[3].path, vec![hex_byte(0xB0)]);
}

#[test]
fn merkle_paths_answer_counts_a_missing_lookup_as_not_found() {
    let a = Element::from_be_bytes([0xA0; 32]);
    let req = MerklePathsRequest { commitments: vec![hex_byte(1), hex_byte(2)] };
    let short = vec![Some(vec![vec![a]])];
    let response = merkle_paths_for_notes(&req, a, &short);
    assert_eq!(response.paths.len(), 2);
    assert!(response.paths[0].found);
    assert!(!response.paths[1].found);
    assert_eq!(response.paths[1].commitment, hex_byte(2));
    let long = vec![None, None, Some(vec![vec![a]])];
    assert_eq!(merkle_paths_for_notes(&req, a, &long).paths.len(), 2);
    let none = MerklePathsRequest { commitments: vec![] };
    let response = merkle_paths_for_notes(&none, a, &long);
    assert!(response.paths.is_empty());
    assert_eq!(response.root, hex_byte(0xA0));
}
