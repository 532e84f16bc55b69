use embedding_gemma_rs::QuantizationType;

const VARIANTS: [QuantizationType; 5] = [
    QuantizationType::Full,
    QuantizationType::FP16,
    QuantizationType::Q4,
    QuantizationType::Q4F16,
    QuantizationType::Quantized,
];

#[test]
fn model_filenames_exact() {
    assert_eq!(QuantizationType::Full.model_filename(), "model.onnx");
    assert_eq!(QuantizationType::FP16.model_filename(), "model_fp16.onnx");
    assert_eq!(QuantizationType::Q4.model_filename(), "model_q4.onnx");
    assert_eq!(QuantizationType::Q4F16.model_filename(), "model_q4f16.onnx");
    assert_eq!(QuantizationType::Quantized.model_filename(), "model_quantized.onnx");
}

#[test]
fn data_filenames_exact() {
    assert_eq!(QuantizationType::Full.data_filename(), "model.onnx_data");
    assert_eq!(QuantizationType::FP16.data_filename(), "model_fp16.onnx_data");
    assert_eq!(QuantizationType::Q4.data_filename(), "model_q4.onnx_data");
    assert_eq!(QuantizationType::Q4F16.data_filename(), "model_q4f16.onnx_data");
    assert_eq!(QuantizationType::Quantized.data_filename(), "model_quantized.onnx_data");
}

#[test]
fn filenames_nonempty() {
    for v in VARIANTS {
        assert!(!v.model_filename().is_empty());
        assert!(!v.data_filename().is_empty());
    }
}

#[test]
fn filenames_distinct_across_variants() {
    for (i, a) in VARIANTS.iter().enumerate() {
        for (j, b) in VARIANTS.iter().enumerate() {
            if i != j {
                assert_ne!(a.model_filename(), b.model_filename());
                assert_ne!(a.data_filename(), b.data_filename());
            }
        }
    }
}

#[test]
fn filenames_deterministic() {
    for v in VARIANTS {
        assert_eq!(v.model_filename(), v.model_filename());
        assert_eq!(v.data_filename(), v.data_filename());
    }
}

#[test]
fn default_variant_is_q4f16() {
    assert_eq!(QuantizationType::default(), QuantizationType::Q4F16);
}
