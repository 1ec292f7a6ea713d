use hashengine::dispatch::hash_text;
use hashengine::dispatch::run_batch;

/// A stand-in digest of eight bytes that depends on every byte of the
/// preimage, on the dataset and on both counts.
fn dispatch_digest(preimage: &[u8], dataset: &Vec<u8>, loops: u32, instrs: u32) -> Vec<u8> {
    let mut state: u64 = 0xcbf29ce484222325 ^ ((loops as u64) << 32) ^ (instrs as u64);
    for round in 0..loops {
        for byte in preimage {
            let at = (state as usize ^ round as usize) % dataset.len();
            state = (state ^ (*byte as u64) ^ (dataset[at] as u64)).wrapping_mul(0x100000001b3);
        }
    }
    state.to_be_bytes().to_vec()
}

/// A digest that gives the preimage's bytes back.
fn echo_digest(preimage: &[u8], _dataset: &Vec<u8>, _loops: u32, _instrs: u32) -> Vec<u8> {
    preimage.to_vec()
}

fn dispatch_dataset() -> Vec<u8> {
    (0..4096u32).map(|i| (i.wrapping_mul(2654435761) >> 24) as u8).collect()
}

#[test]
fn hash_text_is_the_hex_of_the_digest_of_the_utf8_bytes() {
    let dataset = dispatch_dataset();
    assert_eq!(hash_text("Hello world!", &dataset, 8, 256, &echo_digest), "48656c6c6f20776f726c6421");
    assert_eq!(hash_text("é", &dataset, 8, 256, &echo_digest), "c3a9");
    assert_eq!(hash_text("", &dataset, 8, 256, &echo_digest), "");
}

#[test]
fn hash_text_hands_dataset_and_counts_to_the_digest() {
    fn probe(_preimage: &[u8], dataset: &Vec<u8>, loops: u32, instrs: u32) -> Vec<u8> {
        vec![dataset.len() as u8, loops as u8, (instrs >> 8) as u8, instrs as u8]
    }
    let dataset = vec![0u8; 5];
    assert_eq!(hash_text("x", &dataset, 8, 256, &probe), "05080100");
    assert_eq!(hash_text("x", &dataset, 3, 0x0203, &probe), "05030203");
}

#[test]
fn hash_text_has_sixteen_characters_for_eight_bytes() {
    let dataset = dispatch_dataset();
    let text = hash_text("candidate", &dataset, 8, 256, &dispatch_digest);
    assert_eq!(text.len(), 16);
    assert_eq!(text, hash_text("candidate", &dataset, 8, 256, &dispatch_digest));
    assert_ne!(text, hash_text("candidatf", &dataset, 8, 256, &dispatch_digest));
}

#[test]
fn run_batch_of_nothing_is_empty() {
    let dataset = dispatch_dataset();
    let none: Vec<String> = Vec::new();
    assert!(run_batch(&none, &dataset, 8, 256, &dispatch_digest).is_empty());
}

#[test]
fn run_batch_returns_texts_not_preimages() {
    let dataset = dispatch_dataset();
    let batch = vec!["ab".to_string(), "c".to_string()];
    assert_eq!(run_batch(&batch, &dataset, 8, 256, &echo_digest), vec!["6162", "63"]);
}

#[test]
fn run_batch_keeps_the_order_of_a_large_batch() {
    let dataset = dispatch_dataset();
    let batch: Vec<String> = (0..5000).map(|i| format!("preimage-{}", i)).collect();
    let texts = run_batch(&batch, &dataset, 8, 256, &dispatch_digest);
    assert_eq!(texts.len(), 5000);
    for (at, preimage) in batch.iter().enumerate() {
        assert_eq!(texts[at], hash_text(preimage, &dataset, 8, 256, &dispatch_digest));
    }
}

#[test]
fn run_batch_keeps_the_order_when_late_items_finish_first() {
    // the longer the preimage, the longer its digest takes: early items are the slow ones
    let dataset = dispatch_dataset();
    let batch: Vec<String> = (0..64).map(|i| "z".repeat((64 - i) * 200)).collect();
    let texts = run_batch(&batch, &dataset, 8, 256, &dispatch_digest);
    let expected: Vec<String> =
        batch.iter().map(|p| hash_text(p, &dataset, 8, 256, &dispatch_digest)).collect();
    assert_eq!(texts, expected);
}

#[test]
fn run_batch_repeats_equal_preimages() {
    let dataset = dispatch_dataset();
    let batch = vec!["same".to_string(), "other".to_string(), "same".to_string()];
    let texts = run_batch(&batch, &dataset, 8, 256, &dispatch_digest);
    assert_eq!(texts[0], texts[2]);
    assert_ne!(texts[0], texts[1]);
}
