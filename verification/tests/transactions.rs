use legacy_tx::error::{DecodeError, Error};
use legacy_tx::legacy::{LegacyTransaction, UnverifiedLegacyTransaction};
use legacy_tx::primitives::{Action, Address, H256, U256};
use rlp::RlpStream;

fn hex(text: &str) -> Vec<u8> {
    let digits: Vec<u8> = text.bytes().map(|c| if c <= b'9' { c - b'0' } else { c - b'a' + 10 }).collect();
    digits.chunks(2).map(|pair| pair[0] * 16 + pair[1]).collect()
}

fn word(x: u64) -> U256 {
    U256 { limbs: [x, 0, 0, 0] }
}

fn digest(bytes: &[u8]) -> H256 {
    H256 { bytes: keccak_hash::keccak(bytes).0 }
}

fn transfer() -> LegacyTransaction {
    LegacyTransaction {
        nonce: word(9),
        gas_price: word(20_000_000_000),
        gas: word(21_000),
        action: Action::Call(Address { bytes: [0x35; 20] }),
        value: word(1_000_000_000_000_000_000),
        data: Vec::new(),
    }
}

fn creation() -> LegacyTransaction {
    LegacyTransaction {
        nonce: word(0),
        gas_price: U256 { limbs: [1, 2, 3, 4] },
        gas: U256 { limbs: [u64::MAX, u64::MAX, u64::MAX, u64::MAX] },
        action: Action::Create,
        value: U256 { limbs: [0, 0, 1, 0] },
        data: vec![0x60, 0x00, 0x80, 0xff, 0x00],
    }
}

fn list_of(items: &[&[u8]]) -> Vec<u8> {
    let mut s = RlpStream::new();
    s.begin_list(items.len());
    for item in items {
        s.append(item);
    }
    s.out().to_vec()
}

const SIGNING_DATA: &str =
    "ec098504a817c800825208943535353535353535353535353535353535353535880de0b6b3a764000080018080";

#[test]
fn payload_size_is_six_or_nine() {
    assert_eq!(LegacyTransaction::payload_size(None), 6);
    assert_eq!(LegacyTransaction::payload_size(Some(1)), 9);
    assert_eq!(LegacyTransaction::payload_size(Some(0)), 9);
}

#[test]
fn signing_bytes_with_chain() {
    assert_eq!(transfer().unsigned_rlp_bytes(Some(1)), hex(SIGNING_DATA));
}

#[test]
fn signing_bytes_without_chain() {
    let expected = hex("e9098504a817c800825208943535353535353535353535353535353535353535880de0b6b3a764000080");
    assert_eq!(transfer().unsigned_rlp_bytes(None), expected);
}

#[test]
fn message_hash_with_chain() {
    let expected = hex("daf5a779ae972f972197303d7b574746c7ef83eadac0f2791ad23db92e4c8e53");
    assert_eq!(transfer().message_hash(Some(1)).bytes.to_vec(), expected);
    assert_eq!(transfer().message_hash(Some(1)), digest(&hex(SIGNING_DATA)));
}

#[test]
fn message_hash_is_the_digest_of_the_signing_bytes() {
    for chain in [None, Some(0), Some(1), Some(u64::MAX)] {
        for tx in [transfer(), creation(), LegacyTransaction::default()] {
            assert_eq!(tx.message_hash(chain), digest(&tx.unsigned_rlp_bytes(chain)));
        }
    }
    assert_ne!(transfer().message_hash(None), transfer().message_hash(Some(1)));
    assert_ne!(transfer().message_hash(Some(2)), transfer().message_hash(Some(1)));
}

#[test]
fn message_hash_does_not_depend_on_the_signature() {
    let a = UnverifiedLegacyTransaction::new_with_network_v(transfer(), word(1), word(2), 37, H256 { bytes: [0; 32] })
        .unwrap();
    let b = UnverifiedLegacyTransaction::new_with_network_v(transfer(), word(7), word(8), 28, H256 { bytes: [9; 32] })
        .unwrap();
    assert_eq!(a.unsigned().message_hash(Some(1)), b.unsigned().message_hash(Some(1)));
    assert_eq!(a.unsigned().message_hash(None), transfer().message_hash(None));
}

#[test]
fn creation_is_written_as_an_empty_string() {
    let bytes = creation().unsigned_rlp_bytes(None);
    let expected = list_of(&[
        &[],
        &hex("04000000000000000300000000000000020000000000000001"),
        &[0xff; 32],
        &[],
        &hex("0100000000000000000000000000000000"),
        &[0x60, 0x00, 0x80, 0xff, 0x00],
    ]);
    assert_eq!(bytes, expected);
}

#[test]
fn default_transaction_is_six_empty_strings() {
    let tx = LegacyTransaction::default();
    assert_eq!(tx.unsigned_rlp_bytes(None), vec![0xc6, 0x80, 0x80, 0x80, 0x80, 0x80, 0x80]);
    assert_eq!(tx.unsigned_rlp_bytes(Some(5)), vec![0xc9, 0x80, 0x80, 0x80, 0x80, 0x80, 0x80, 0x05, 0x80, 0x80]);
    assert_eq!(*tx.action(), Action::Create);
    assert_eq!(tx.nonce(), word(0));
}

#[test]
fn unsigned_round_trip() {
    for tx in [transfer(), creation(), LegacyTransaction::default()] {
        let bytes = tx.unsigned_rlp_bytes(None);
        assert_eq!(LegacyTransaction::decode(&bytes), Ok(tx.clone()));
        assert_eq!(LegacyTransaction::decode_exact(&bytes), Ok(tx));
    }
}

#[test]
fn unsigned_decode_reads_the_first_six_of_nine() {
    let bytes = transfer().unsigned_rlp_bytes(Some(1));
    assert_eq!(LegacyTransaction::decode(&bytes), Ok(transfer()));
    assert_eq!(LegacyTransaction::decode_exact(&bytes), Err(DecodeError::RlpIncorrectListLen));
}

#[test]
fn signed_bytes_have_nine_items_whatever_the_chain() {
    let r = U256 { limbs: [11, 12, 13, 14] };
    let s = word(0x80);
    for (id, chain, v) in [(0u64, None, 27u8), (1, None, 28), (0, Some(1), 37), (1, Some(1), 38)] {
        let tx = UnverifiedLegacyTransaction::new_with_chain_id(transfer(), r, s, id, chain, H256 { bytes: [0; 32] })
            .unwrap();
        let mut expected = RlpStream::new();
        expected.begin_list(9);
        expected.append(&9u64).append(&20_000_000_000u64).append(&21_000u64);
        expected.append(&ethereum_types::H160([0x35; 20]));
        expected.append(&1_000_000_000_000_000_000u64).append(&Vec::<u8>::new());
        expected.append(&v).append(&ethereum_types::U256([11, 12, 13, 14])).append(&0x80u64);
        assert_eq!(tx.rlp_bytes(), expected.out().to_vec());
        assert_eq!(rlp::Rlp::new(&tx.rlp_bytes()).item_count(), Ok(9));
    }
}

#[test]
fn signed_round_trip() {
    for unsigned in [transfer(), creation(), LegacyTransaction::default()] {
        for v in [27u64, 28, 37, 38, 0, 4, u64::MAX] {
            let r = U256 { limbs: [5, 0, 0, u64::MAX] };
            let s = word(1 << 40);
            let built =
                UnverifiedLegacyTransaction::new_with_network_v(unsigned.clone(), r, s, v, H256 { bytes: [0; 32] })
                    .unwrap();
            let bytes = built.rlp_bytes();
            let read = UnverifiedLegacyTransaction::decode(&bytes).unwrap();
            assert_eq!(*read.unsigned(), unsigned);
            assert_eq!(read.v(), v);
            assert_eq!(read.r(), r);
            assert_eq!(read.s(), s);
            assert_eq!(read.hash(), digest(&bytes));
            assert_eq!(read.hash(), built.compute_hash());
            assert_eq!(read.rlp_bytes(), bytes);
            let mut finished = built;
            finished.set_hash(digest(&bytes));
            assert_eq!(finished, read);
        }
    }
}

#[test]
fn decoding_twice_gives_the_same_hash() {
    let bytes = UnverifiedLegacyTransaction::new_with_network_v(transfer(), word(3), word(4), 37, H256 { bytes: [1; 32] })
        .unwrap()
        .rlp_bytes();
    let first = UnverifiedLegacyTransaction::decode(&bytes).unwrap();
    let second = UnverifiedLegacyTransaction::decode(&bytes).unwrap();
    assert_eq!(first.hash(), second.hash());
    assert_eq!(first.hash().bytes, keccak_hash::keccak(&bytes).0);
    assert_ne!(first.hash().bytes.to_vec(), bytes);
}

#[test]
fn signed_decode_wants_nine_items() {
    let one: &[u8] = &[1];
    let to: &[u8] = &[0x35; 20];
    let eight = list_of(&[one, one, one, to, one, one, one, one]);
    let nine = list_of(&[one, one, one, to, one, one, one, one, one]);
    let ten = list_of(&[one, one, one, to, one, one, one, one, one, one]);
    assert_eq!(UnverifiedLegacyTransaction::decode(&eight), Err(DecodeError::RlpIncorrectListLen));
    assert_eq!(UnverifiedLegacyTransaction::decode(&ten), Err(DecodeError::RlpIncorrectListLen));
    let tx = UnverifiedLegacyTransaction::decode(&nine).unwrap();
    assert_eq!(tx.unsigned().nonce(), word(1));
    assert_eq!(tx.unsigned().gas_price(), word(1));
    assert_eq!(tx.unsigned().gas(), word(1));
    assert_eq!(*tx.unsigned().action(), Action::Call(Address { bytes: [0x35; 20] }));
    assert_eq!(tx.unsigned().value(), word(1));
    assert_eq!(*tx.unsigned().data(), vec![1u8]);
    assert_eq!(tx.v(), 1);
    assert_eq!(tx.standard_v(), 4);
    assert_eq!(tx.r(), word(1));
    assert_eq!(tx.s(), word(1));
}

#[test]
fn signed_decode_of_data_is_refused() {
    assert_eq!(UnverifiedLegacyTransaction::decode(&[0x83, 1, 2, 3]), Err(DecodeError::RlpExpectedToBeList));
    assert_eq!(UnverifiedLegacyTransaction::decode(&[]), Err(DecodeError::RlpExpectedToBeList));
    assert_eq!(LegacyTransaction::decode(&[0x83, 1, 2, 3]), Err(DecodeError::RlpExpectedToBeList));
}

#[test]
fn field_errors_come_from_the_first_bad_field() {
    let one: &[u8] = &[1];
    let to: &[u8] = &[0x35; 20];
    let long: &[u8] = &[1; 33];
    let padded: &[u8] = &[0, 1];
    assert_eq!(LegacyTransaction::decode(&list_of(&[long, padded, one, to, one, one])), Err(DecodeError::RlpIsTooBig));
    assert_eq!(
        LegacyTransaction::decode(&list_of(&[one, padded, long, to, one, one])),
        Err(DecodeError::RlpInvalidIndirection)
    );
    assert_eq!(LegacyTransaction::decode(&list_of(&[one, one, one, &to[1..], one, one])), Err(DecodeError::RlpIsTooShort));
    assert_eq!(LegacyTransaction::decode(&list_of(&[one, one, one, &long[..21], one, one])), Err(DecodeError::RlpIsTooBig));
    assert_eq!(LegacyTransaction::decode(&list_of(&[one, one, one, to, one])), Err(DecodeError::RlpIsTooShort));
    let nine_u64: &[u8] = &[1; 9];
    assert_eq!(
        UnverifiedLegacyTransaction::decode(&list_of(&[one, one, one, to, one, one, nine_u64, one, one])),
        Err(DecodeError::RlpIsTooBig)
    );
    assert_eq!(
        UnverifiedLegacyTransaction::decode(&list_of(&[one, one, one, to, one, one, one, one, padded])),
        Err(DecodeError::RlpInvalidIndirection)
    );
}

#[test]
fn nested_list_in_place_of_a_field_is_refused() {
    let mut s = RlpStream::new();
    s.begin_list(6);
    s.append(&1u8).append(&1u8).append(&1u8);
    s.begin_list(0);
    s.append(&1u8).append(&1u8);
    assert_eq!(LegacyTransaction::decode(&s.out()), Err(DecodeError::RlpExpectedToBeData));
}

#[test]
fn empty_action_is_read_as_creation() {
    let one: &[u8] = &[1];
    let tx = LegacyTransaction::decode(&list_of(&[one, one, one, &[], one, &[]])).unwrap();
    assert_eq!(*tx.action(), Action::Create);
    assert_eq!(*tx.data(), Vec::<u8>::new());
}

#[test]
fn recovery_id_two_is_refused() {
    let built =
        UnverifiedLegacyTransaction::new_with_chain_id(transfer(), word(1), word(2), 2, None, H256 { bytes: [0; 32] });
    assert_eq!(built, Err(Error::InvalidSignature));
    let built = UnverifiedLegacyTransaction::new_with_chain_id(
        transfer(),
        word(1),
        word(2),
        u64::MAX,
        Some(u64::MAX),
        H256 { bytes: [0; 32] },
    );
    assert_eq!(built, Err(Error::InvalidSignature));
    assert_eq!(Error::InvalidSignature.message(), "invalid sig v");
}

#[test]
fn recovery_id_is_packed_and_read_back() {
    let hash = H256 { bytes: [7; 32] };
    let tx = UnverifiedLegacyTransaction::new_with_chain_id(transfer(), word(1), word(2), 1, Some(1), hash).unwrap();
    assert_eq!(tx.v(), 38);
    assert_eq!(tx.standard_v(), 1);
    assert_eq!(tx.r(), word(1));
    assert_eq!(tx.s(), word(2));
    assert_eq!(tx.hash(), hash);
    assert_eq!(*tx.unsigned(), transfer());
    let tx = UnverifiedLegacyTransaction::new_with_chain_id(transfer(), word(1), word(2), 0, None, hash).unwrap();
    assert_eq!(tx.v(), 27);
    assert_eq!(tx.standard_v(), 0);
}

#[test]
fn network_v_is_taken_as_it_is() {
    let hash = H256 { bytes: [7; 32] };
    let tx = UnverifiedLegacyTransaction::new_with_network_v(creation(), word(1), word(2), 0, hash).unwrap();
    assert_eq!(tx.v(), 0);
    assert_eq!(tx.standard_v(), 4);
    assert_eq!(tx.unsigned().gas_price(), U256 { limbs: [1, 2, 3, 4] });
    assert_eq!(*tx.unsigned().data(), vec![0x60, 0x00, 0x80, 0xff, 0x00]);
}

#[test]
fn set_hash_changes_only_the_hash() {
    let mut tx =
        UnverifiedLegacyTransaction::new_with_network_v(transfer(), word(1), word(2), 37, H256 { bytes: [0; 32] })
            .unwrap();
    let canonical = tx.compute_hash();
    assert_eq!(canonical, digest(&tx.rlp_bytes()));
    tx.set_hash(canonical);
    assert_eq!(tx.hash(), canonical);
    assert_eq!(tx.v(), 37);
    assert_eq!(tx.r(), word(1));
    assert_eq!(tx.s(), word(2));
    assert_eq!(*tx.unsigned(), transfer());
    assert_eq!(UnverifiedLegacyTransaction::decode(&tx.rlp_bytes()), Ok(tx));
}

#[test]
fn small_numbers() {
    assert_eq!(U256::zero(), U256 { limbs: [0; 4] });
    assert_eq!(U256::from_u64(77), U256 { limbs: [77, 0, 0, 0] });
    assert_eq!(ethereum_types::U256(U256::from_u64(77).limbs), ethereum_types::U256::from(77u64));
}

#[test]
fn transactions_are_appended_to_a_stream_of_the_caller() {
    let first =
        UnverifiedLegacyTransaction::new_with_network_v(transfer(), word(1), word(2), 37, H256 { bytes: [0; 32] })
            .unwrap();
    let second =
        UnverifiedLegacyTransaction::new_with_network_v(creation(), word(3), word(4), 28, H256 { bytes: [0; 32] })
            .unwrap();
    let mut s = RlpStream::new();
    s.begin_list(3);
    first.rlp_append_sealed_transaction(&mut s);
    second.rlp_append_sealed_transaction(&mut s);
    transfer().rlp_append_unsigned_transaction(&mut s, Some(1));
    assert!(s.is_finished());
    let mut expected = RlpStream::new();
    expected.begin_list(3);
    expected.append_raw(&first.rlp_bytes(), 1);
    expected.append_raw(&second.rlp_bytes(), 1);
    expected.append_raw(&hex(SIGNING_DATA), 1);
    assert_eq!(s.out(), expected.out());
}

#[test]
fn six_fields_fill_a_list_of_six() {
    let mut s = RlpStream::new();
    s.begin_list(6);
    transfer().rlp_append_fields(&mut s);
    assert!(s.is_finished());
    assert_eq!(s.out().to_vec(), transfer().unsigned_rlp_bytes(None));
}

#[test]
fn actions_are_written_as_byte_strings() {
    let mut s = RlpStream::new();
    legacy_tx::legacy::append_action(&mut s, &Action::Create);
    assert_eq!(s.out().to_vec(), vec![0x80]);
    let mut s = RlpStream::new();
    legacy_tx::legacy::append_action(&mut s, &Action::Call(Address { bytes: [0x35; 20] }));
    let mut expected = vec![0x94];
    expected.extend_from_slice(&[0x35; 20]);
    assert_eq!(s.out().to_vec(), expected);
}

#[test]
fn actions_are_read_from_byte_strings() {
    let to: &[u8] = &[0x35; 20];
    let list = list_of(&[&[], to, &[7]]);
    assert_eq!(legacy_tx::legacy::action_at(&list, 0), Ok(Action::Create));
    assert_eq!(legacy_tx::legacy::action_at(&list, 1), Ok(Action::Call(Address { bytes: [0x35; 20] })));
    assert_eq!(legacy_tx::legacy::action_at(&list, 2), Err(DecodeError::RlpIsTooShort));
    assert_eq!(legacy_tx::legacy::action_at(&list, 3), Err(DecodeError::RlpIsTooShort));
}

#[test]
fn items_after_the_end_of_the_list_are_not_read() {
    let one: &[u8] = &[1];
    let to: &[u8] = &[0x35; 20];
    let mut bytes = list_of(&[one, one, one, to, one, one, one, one]);
    bytes.push(1);
    assert!(UnverifiedLegacyTransaction::decode(&bytes).is_err());
}

#[test]
fn finalize_sets_the_digest_of_the_bytes() {
    let built =
        UnverifiedLegacyTransaction::new_with_network_v(creation(), word(1), word(2), 38, H256 { bytes: [0; 32] })
            .unwrap();
    let bytes = built.rlp_bytes();
    let done = built.finalize();
    assert_eq!(done.hash(), digest(&bytes));
    assert_eq!(done.rlp_bytes(), bytes);
    assert_eq!(done.v(), 38);
    assert_eq!(Ok(done), UnverifiedLegacyTransaction::decode(&bytes));
}
