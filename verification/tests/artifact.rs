use pvf_prepare_worker::CompiledArtifact;

#[test]
fn artifact_holds_the_code_it_was_made_of() {
    let artifact = CompiledArtifact::new(vec![1, 2, 3]);
    assert_eq!(artifact.as_ref(), &[1u8, 2, 3][..]);
    assert_eq!(artifact.into_bytes(), vec![1, 2, 3]);
}

#[test]
fn artifact_may_be_empty() {
    let artifact = CompiledArtifact::new(Vec::new());
    assert!(artifact.as_ref().is_empty());
}

#[test]
fn artifact_is_usable_as_bytes() {
    fn length(bytes: impl AsRef<[u8]>) -> usize {
        bytes.as_ref().len()
    }
    assert_eq!(length(&CompiledArtifact::new(vec![5, 6])), 2);
    assert_eq!(length(CompiledArtifact::new(vec![5, 6, 7])), 3);
}
