use madsim::election::{
    CampaignResponse, Error, KeyValue, LeaderKey, LeaderResponse, ProclaimOptions,
    ProclaimResponse, Request, ResignOptions, ResignResponse, ResponseHeader,
};

fn key() -> LeaderKey {
    LeaderKey::new()
        .with_name(b"election".to_vec())
        .with_key(b"election/1".to_vec())
        .with_rev(17)
        .with_lease(-4)
}

#[test]
fn new_leader_key_is_blank() {
    let leader = LeaderKey::new();
    assert_eq!(leader.name(), b"");
    assert_eq!(leader.key(), b"");
    assert_eq!(leader.rev(), 0);
    assert_eq!(leader.lease(), 0);
    assert_eq!(leader.name_str().unwrap(), "");
}

#[test]
fn leader_key_builders_set_one_field_each() {
    let leader = key();
    assert_eq!(leader.name(), b"election");
    assert_eq!(leader.key(), b"election/1");
    assert_eq!(leader.rev(), 17);
    assert_eq!(leader.lease(), -4);
    let renamed = leader.with_name(b"other".to_vec());
    assert_eq!(renamed.name(), b"other");
    assert_eq!(renamed.key(), b"election/1");
    assert_eq!((renamed.rev(), renamed.lease()), (17, -4));
    let rekeyed = renamed.with_key(Vec::new()).with_rev(i64::MIN).with_lease(i64::MAX);
    assert_eq!(rekeyed.name(), b"other");
    assert_eq!(rekeyed.key(), b"");
    assert_eq!((rekeyed.rev(), rekeyed.lease()), (i64::MIN, i64::MAX));
}

#[test]
fn leader_key_strings_are_the_bytes_as_text() {
    let leader = key();
    assert_eq!(leader.name_str().unwrap(), "election");
    assert_eq!(leader.key_str().unwrap(), "election/1");
    let accented = LeaderKey::new().with_name("caf\u{e9}".as_bytes().to_vec());
    assert_eq!(accented.name_str().unwrap(), "caf\u{e9}");
    assert_eq!(accented.name(), &[0x63, 0x61, 0x66, 0xc3, 0xa9]);
}

#[test]
fn leader_key_strings_refuse_invalid_bytes() {
    let leader = LeaderKey::new()
        .with_name(vec![0x66, 0xff, 0x6f])
        .with_key(vec![0xc3]);
    assert!(matches!(leader.name_str(), Err(Error::Utf8Error(_))));
    assert!(matches!(leader.key_str(), Err(Error::Utf8Error(_))));
    match leader.name_str() {
        Err(Error::Utf8Error(e)) => assert_eq!(e.valid_up_to(), 1),
        Ok(_) => panic!("invalid bytes were read as text"),
    }
    // the bytes stay readable
    assert_eq!(leader.name(), &[0x66, 0xff, 0x6f]);
}

#[test]
fn responses_hand_out_their_parts() {
    let header = ResponseHeader { revision: 5 };
    assert_eq!(header.revision(), 5);
    let campaign = CampaignResponse { header, leader: key() };
    assert_eq!(campaign.header(), Some(&header));
    assert_eq!(campaign.leader().unwrap().name(), b"election");
    assert_eq!(campaign.leader().unwrap().rev(), 17);
    let proclaim = ProclaimResponse { header };
    assert_eq!(proclaim.header().unwrap().revision(), 5);
    let resign = ResignResponse { header: ResponseHeader { revision: -1 } };
    assert_eq!(resign.header(), Some(&ResponseHeader { revision: -1 }));
}

#[test]
fn leader_response_may_lack_a_value() {
    let header = ResponseHeader { revision: 9 };
    let none = LeaderResponse { header, kv: None };
    assert_eq!(none.header(), Some(&header));
    assert!(none.kv().is_none());
    let kv = KeyValue { key: b"k".to_vec(), value: b"v".to_vec(), lease: 3 };
    let some = LeaderResponse { header, kv: Some(kv) };
    let got = some.kv().unwrap();
    assert_eq!(got.key(), b"k");
    assert_eq!(got.value(), b"v");
    assert_eq!(got.lease(), 3);
}

#[test]
fn requests_carry_what_was_given() {
    match Request::campaign(b"e".to_vec(), b"v".to_vec(), 7) {
        Request::Campaign { name, value, lease } => {
            assert_eq!((name, value, lease), (b"e".to_vec(), b"v".to_vec(), 7));
        }
        other => panic!("{:?}", other),
    }
    match Request::leader(b"e".to_vec()) {
        Request::Leader { name } => assert_eq!(name, b"e".to_vec()),
        other => panic!("{:?}", other),
    }
    match Request::observe(b"o".to_vec()) {
        Request::Observe { name } => assert_eq!(name, b"o".to_vec()),
        other => panic!("{:?}", other),
    }
}

#[test]
fn options_start_without_a_leader_key() {
    assert!(ProclaimOptions::new().leader().is_none());
    assert!(ProclaimOptions::default().leader().is_none());
    assert!(ResignOptions::new().leader().is_none());
    assert!(ResignOptions::default().leader().is_none());
    let options = ResignOptions::new().with_leader(key());
    assert_eq!(options.leader().unwrap().key(), b"election/1");
}

#[test]
fn proclaim_and_resign_name_the_leader_key() {
    let options = ProclaimOptions::new().with_leader(key());
    assert_eq!(options.leader().unwrap().name(), b"election");
    match Request::proclaim(b"v2".to_vec(), Some(options)) {
        Request::Proclaim { leader, value } => {
            assert_eq!(value, b"v2".to_vec());
            assert_eq!(leader.name(), b"election");
            assert_eq!(leader.key(), b"election/1");
            assert_eq!((leader.rev(), leader.lease()), (17, -4));
        }
        other => panic!("{:?}", other),
    }
    let options = ResignOptions::default().with_leader(key().with_rev(18));
    match Request::resign(Some(options)) {
        Request::Resign { leader } => {
            assert_eq!(leader.name(), b"election");
            assert_eq!(leader.rev(), 18);
        }
        other => panic!("{:?}", other),
    }
    // a later key takes the place of an earlier one
    let options = ProclaimOptions::default()
        .with_leader(key())
        .with_leader(LeaderKey::new().with_rev(1));
    match Request::proclaim(Vec::new(), Some(options)) {
        Request::Proclaim { leader, .. } => assert_eq!((leader.name(), leader.rev()), (&b""[..], 1)),
        other => panic!("{:?}", other),
    }
}
