use canary_examples::croc::{CrocCluster, ROOM_WORDS};

fn check_phrase(room: &str, words: usize) {
    assert!(!room.starts_with(' ') && !room.ends_with(' '));
    assert!(!room.contains("  "));
    assert_eq!(room.split(' ').count(), words);
    assert!(room.chars().all(|c| c == ' ' || c == '-' || c.is_ascii_lowercase()));
}

#[test]
fn room_name_is_five_words() {
    let mut cluster = CrocCluster::default();
    let room = cluster.send_file("a.txt".to_string(), vec![1, 2, 3]);
    assert_eq!(ROOM_WORDS, 5);
    check_phrase(&room, 5);
}

#[test]
fn sent_file_is_handed_out_once() {
    let mut cluster = CrocCluster::default();
    let room = cluster.send_file("notes.md".to_string(), b"hello".to_vec());
    let got = cluster.get_file(room.clone());
    assert_eq!(got, Some(("notes.md".to_string(), b"hello".to_vec())));
    assert_eq!(cluster.get_file(room), None);
}

#[test]
fn unknown_room_gives_nothing() {
    let mut cluster = CrocCluster::default();
    assert_eq!(cluster.get_file("no such room".to_string()), None);
    let room = cluster.send_file("x".to_string(), vec![]);
    assert_eq!(cluster.get_file("no such room".to_string()), None);
    assert_eq!(cluster.get_file(room), Some(("x".to_string(), vec![])));
}

#[test]
fn open_room_replaces_what_the_room_held() {
    let mut cluster = CrocCluster::default();
    cluster.open_room("red fox".to_string(), "one".to_string(), vec![1]);
    cluster.open_room("red fox".to_string(), "two".to_string(), vec![2]);
    assert_eq!(cluster.get_file("red fox".to_string()), Some(("two".to_string(), vec![2])));
    assert_eq!(cluster.get_file("red fox".to_string()), None);
}

#[test]
fn rooms_do_not_interfere() {
    let mut cluster = CrocCluster::default();
    cluster.open_room("a".to_string(), "fa".to_string(), vec![1]);
    cluster.open_room("b".to_string(), "fb".to_string(), vec![2]);
    assert_eq!(cluster.get_file("a".to_string()), Some(("fa".to_string(), vec![1])));
    assert_eq!(cluster.get_file("b".to_string()), Some(("fb".to_string(), vec![2])));
    assert_eq!(cluster.get_file("a".to_string()), None);
}

#[test]
fn emptied_room_can_be_refilled() {
    let mut cluster = CrocCluster::default();
    cluster.open_room("r".to_string(), "first".to_string(), vec![1]);
    assert!(cluster.get_file("r".to_string()).is_some());
    cluster.open_room("r".to_string(), "second".to_string(), vec![2, 2]);
    assert_eq!(cluster.get_file("r".to_string()), Some(("second".to_string(), vec![2, 2])));
}

#[test]
fn sending_to_a_used_room_keeps_one_entry() {
    let mut cluster = CrocCluster::default();
    cluster.open_room("same".to_string(), "old".to_string(), vec![0]);
    cluster.open_room("same".to_string(), "new".to_string(), vec![9]);
    cluster.open_room("other".to_string(), "o".to_string(), vec![]);
    assert_eq!(cluster.get_file("same".to_string()), Some(("new".to_string(), vec![9])));
    assert_eq!(cluster.get_file("same".to_string()), None);
    assert_eq!(cluster.get_file("other".to_string()), Some(("o".to_string(), vec![])));
}
