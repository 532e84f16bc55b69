use embedding_gemma_rs::embedder::check_embedding_count;
use embedding_gemma_rs::reranker::{collect_rankings, BackendRanking};
use embedding_gemma_rs::{FacadeError, TextEmbedder};

#[test]
fn error_message_is_carried() {
    let load = FacadeError::ModelLoad(String::from("weights missing"));
    assert_eq!(load.message(), "weights missing");
    let inference = FacadeError::Inference(String::from("bad batch"));
    assert_eq!(inference.message(), "bad batch");
}

#[test]
fn unsupported_model_name_is_a_load_error() {
    let result = TextEmbedder::with_model_name("definitely-not-a-known-model");
    match result {
        Ok(_) => panic!("construction must fail for an unsupported identifier"),
        Err(FacadeError::ModelLoad(msg)) => assert!(!msg.is_empty()),
        Err(FacadeError::Inference(_)) => panic!("an unsupported identifier is a load error"),
    }
}

#[test]
fn embedding_count_accepts_exact_batch() {
    let output = vec![vec![1u32, 2, 3], vec![4u32, 5, 6]];
    let accepted = check_embedding_count(2, output.clone()).unwrap();
    assert_eq!(accepted, output);
}

#[test]
fn embedding_count_rejects_mismatch() {
    let result = check_embedding_count(3, vec![vec![1u32]]);
    match result {
        Ok(_) => panic!("a short batch must be rejected"),
        Err(FacadeError::Inference(msg)) => assert!(!msg.is_empty()),
        Err(FacadeError::ModelLoad(_)) => panic!("a short batch is an inference error"),
    }
}

#[test]
fn rankings_carried_over_entrywise() {
    let raw = vec![
        BackendRanking {
            document: Some(String::from("I love pizza")),
            score_bits: 2.0f32.to_bits(),
            index: 0,
        },
        BackendRanking {
            document: None,
            score_bits: 1.0f32.to_bits(),
            index: 1,
        },
    ];
    let out = collect_rankings(2, raw).unwrap();
    assert_eq!(out.len(), 2);
    assert_eq!(out[0].document, "I love pizza");
    assert_eq!(f32::from_bits(out[0].score_bits), 2.0f32);
    assert_eq!(out[0].index, 0);
    assert_eq!(out[1].document, "");
    assert_eq!(f32::from_bits(out[1].score_bits), 1.0f32);
    assert_eq!(out[1].index, 1);
}

#[test]
fn rankings_keep_original_indices() {
    let raw = vec![
        BackendRanking {
            document: Some(String::from("second")),
            score_bits: 9,
            index: 1,
        },
        BackendRanking {
            document: Some(String::from("first")),
            score_bits: 4,
            index: 0,
        },
    ];
    let out = collect_rankings(2, raw).unwrap();
    let mut indices = Vec::new();
    for entry in &out {
        indices.push(entry.index);
    }
    indices.sort();
    assert_eq!(indices, vec![0, 1]);
}

#[test]
fn rankings_count_mismatch_is_inference_error() {
    let result = collect_rankings(1, Vec::new());
    match result {
        Ok(_) => panic!("a short batch must be rejected"),
        Err(FacadeError::Inference(msg)) => assert!(!msg.is_empty()),
        Err(FacadeError::ModelLoad(_)) => panic!("a short batch is an inference error"),
    }
}
