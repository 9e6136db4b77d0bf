use ain_evm::bloom::{Bloom, Log};
use ain_evm::primitives::{H160, H256};
use ain_evm::service::EVMCoreService;
use ethereum_types::BloomInput;
use hex::FromHex;

type Service = EVMCoreService<(), (), ()>;

fn address() -> H160 {
    H160(<[u8; 20]>::from_hex("ef2d6d194084c2de36e0dabfce45d046b37d1106").unwrap())
}

fn topic() -> H256 {
    H256(
        <[u8; 32]>::from_hex("02c69be41d0b7e40352fc85be1cd65eb03d40ef8427a0ca4596b1ead9a00e9fc")
            .unwrap(),
    )
}

fn log(address: H160, topics: Vec<H256>) -> Log {
    Log { address, topics, data: vec![1, 2, 3] }
}

fn filled(logs: Vec<Log>) -> Bloom {
    let mut bloom = Bloom::default();
    Service::logs_bloom(logs, &mut bloom);
    bloom
}

#[test]
fn bloom_of_a_known_log() {
    let expected = <[u8; 256]>::from_hex(concat_lines()).unwrap();
    assert_eq!(filled(vec![log(address(), vec![topic()])]), Bloom(expected));
}

fn concat_lines() -> String {
    let zeros = "00000000000000000000000000000000";
    let mut lines = vec![zeros; 16];
    lines[1] = "00000000100000000000000000000000";
    lines[6] = "00000002020000000000000000000000";
    lines[7] = "00000000000000000000000800000000";
    lines[8] = "10000000000000000000000000000000";
    lines[9] = "00000000000000000000001000000000";
    lines.concat()
}

#[test]
fn bloom_without_logs_stays() {
    assert_eq!(filled(vec![]), Bloom([0; 256]));
    let mut bloom = Bloom([0x55; 256]);
    Service::logs_bloom(vec![], &mut bloom);
    assert_eq!(bloom, Bloom([0x55; 256]));
}

#[test]
fn bloom_holds_every_address_and_topic() {
    let logs = vec![
        log(H160([1; 20]), vec![H256([2; 32]), H256([3; 32])]),
        log(address(), vec![topic()]),
        log(H160([4; 20]), vec![]),
    ];
    let bloom = ethereum_types::Bloom(filled(logs).0);
    assert!(bloom.contains_input(BloomInput::Raw(&[1; 20])));
    assert!(bloom.contains_input(BloomInput::Raw(&[2; 32])));
    assert!(bloom.contains_input(BloomInput::Raw(&[3; 32])));
    assert!(bloom.contains_input(BloomInput::Raw(&[4; 20])));
    assert!(bloom.contains_input(BloomInput::Raw(&address().0)));
    assert!(bloom.contains_input(BloomInput::Raw(&topic().0)));
    assert!(!bloom.contains_input(BloomInput::Raw(&[9; 20])));
}

#[test]
fn bloom_does_not_depend_on_order_or_repetition() {
    let one = filled(vec![log(address(), vec![topic()]), log(H160([4; 20]), vec![])]);
    let two = filled(vec![
        log(H160([4; 20]), vec![]),
        log(address(), vec![]),
        log(address(), vec![topic(), topic()]),
    ]);
    assert_eq!(one, two);
}

#[test]
fn bloom_in_two_parts_and_at_once() {
    let mut parts = filled(vec![log(address(), vec![topic()])]);
    Service::logs_bloom(vec![log(H160([4; 20]), vec![H256([5; 32])])], &mut parts);
    let whole = filled(vec![
        log(address(), vec![topic()]),
        log(H160([4; 20]), vec![H256([5; 32])]),
    ]);
    assert_eq!(parts, whole);
}

#[test]
fn bloom_keeps_the_bits_it_has() {
    let mut bloom = Bloom([0; 256]);
    bloom.0[17] = 0b1010_0101;
    Service::logs_bloom(vec![log(address(), vec![topic()])], &mut bloom);
    assert_eq!(bloom.0[17] & 0b1010_0101, 0b1010_0101);
}
