use std::sync::atomic::{AtomicUsize, Ordering};
use std::sync::Mutex;

use whoami::{devicename, HostCache, OnceText};

fn units(s: &str) -> Vec<u16> {
    s.encode_utf16().collect()
}

#[test]
fn empty_cell() {
    let cell = OnceText::new();
    assert!(!cell.is_set());
    assert_eq!(cell.get(), None);
}

#[test]
fn first_answer_is_decoded_and_kept() {
    let mut cell = OnceText::new();
    assert_eq!(cell.settle(&units("Mozilla/5.0 Firefox/1")), "Mozilla/5.0 Firefox/1");
    assert!(cell.is_set());
    assert_eq!(cell.settle(&units("other")), "Mozilla/5.0 Firefox/1");
    assert_eq!(cell.get(), Some("Mozilla/5.0 Firefox/1".to_string()));
}

#[test]
fn non_ascii_answer_is_decoded() {
    let mut cell = OnceText::new();
    assert_eq!(cell.settle(&units("héllo 𝄞")), "héllo 𝄞");
}

#[test]
fn malformed_answer_is_replaced() {
    let mut cell = OnceText::new();
    assert_eq!(cell.settle(&[0x61, 0xD800, 0x62]), "a\u{FFFD}b");
}

#[test]
fn empty_answer_is_empty_text() {
    let mut cell = OnceText::new();
    assert_eq!(cell.settle(&[]), "");
    assert!(cell.is_set());
}

#[test]
fn repeated_reads_give_identical_results() {
    let mut cache = HostCache::new();
    let first = cache.document_domain.settle(&units("example.org"));
    let second = cache.document_domain.settle(&units("example.net"));
    assert_eq!(first, second);
    let a = cache.user_agent.settle(&units("Mozilla/5.0 Firefox/120.0"));
    let b = cache.user_agent.settle(&units("Mozilla/5.0 Chrome/1"));
    assert_eq!(devicename(&a), devicename(&b));
    assert_eq!(devicename(&b), "Firefox 120.0");
}

#[test]
fn callers_behind_a_lock_ask_the_host_once() {
    let cache = Mutex::new(HostCache::new());
    let asked = AtomicUsize::new(0);
    let mut seen = Vec::new();
    for i in 0..8 {
        let mut guard = cache.lock().unwrap();
        let text = match guard.user_agent.get() {
            Some(text) => text,
            None => {
                asked.fetch_add(1, Ordering::SeqCst);
                guard.user_agent.settle(&units(&format!("agent {}", i)))
            }
        };
        seen.push(text);
    }
    assert_eq!(asked.load(Ordering::SeqCst), 1);
    assert!(seen.iter().all(|s| *s == "agent 0"));
}
