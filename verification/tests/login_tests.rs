use wh_net::login::{LoginData, MAX_PASSWORD_LEN, MAX_USERNAME_LEN};

#[test]
fn login_rejects_empty_username() {
    assert!(LoginData::new(Vec::new(), b"secret".to_vec()).is_none());
}

#[test]
fn login_rejects_oversized_username() {
    let long = vec![b'a'; MAX_USERNAME_LEN + 1];
    assert!(LoginData::new(long, Vec::new()).is_none());
    let max = vec![b'a'; MAX_USERNAME_LEN];
    assert!(LoginData::new(max, Vec::new()).is_some());
}

#[test]
fn login_rejects_oversized_password() {
    let long = vec![b'p'; MAX_PASSWORD_LEN + 1];
    assert!(LoginData::new(b"user".to_vec(), long).is_none());
    let max = vec![b'p'; MAX_PASSWORD_LEN];
    assert!(LoginData::new(b"user".to_vec(), max).is_some());
}

#[test]
fn login_allows_empty_password() {
    let login = LoginData::new(b"user".to_vec(), Vec::new()).expect("valid login");
    assert_eq!(login.username(), &b"user".to_vec());
    assert!(login.password().is_empty());
}

#[test]
fn login_round_trip() {
    let login = LoginData::new(b"Player".to_vec(), b"Password".to_vec()).expect("valid login");
    let bytes = login.as_bytes();
    let back = LoginData::from_bytes(&bytes).expect("must decode");
    assert_eq!(back.username(), &b"Player".to_vec());
    assert_eq!(back.password(), &b"Password".to_vec());
}

#[test]
fn login_exact_user_data_bytes() {
    let login = LoginData::new(vec![b'a', b'b'], vec![b'c']).expect("valid login");
    assert_eq!(login.as_bytes(), vec![2u8, 1, 97, 98, 99]);
}

#[test]
fn login_from_bytes_ignores_trailing_padding() {
    let login = LoginData::new(b"ab".to_vec(), b"c".to_vec()).expect("valid login");
    let mut padded = login.as_bytes();
    padded.resize(256, 0);
    let back = LoginData::from_bytes(&padded).expect("padded user-data must decode");
    assert_eq!(back.username(), &b"ab".to_vec());
    assert_eq!(back.password(), &b"c".to_vec());
}

#[test]
fn login_from_bytes_rejects_malformed_buffers() {
    assert!(LoginData::from_bytes(&Vec::new()).is_none());
    assert!(LoginData::from_bytes(&vec![5u8]).is_none());
    // Zero-length username is invalid.
    assert!(LoginData::from_bytes(&vec![0u8, 0]).is_none());
    // Buffer shorter than the declared field lengths.
    assert!(LoginData::from_bytes(&vec![2u8, 1, 97]).is_none());
}
