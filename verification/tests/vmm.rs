use device_metrics::vmm::Vmm;

#[test]
fn it_works() {
    let mut vmm = Vmm::new();
    vmm.flush_metrics();
    vmm.block_device.activate();
    vmm.flush_metrics();
    let expected = concat_records(&[
        "{\"successful_activation\":0,\"activate_error\":0,\"features_error\":0}",
        "{\"successful_activation\":0,\"activate_error\":1,\"features_error\":0}",
    ]);
    assert_eq!(vmm.writer, expected);
}

fn concat_records(records: &[&str]) -> Vec<u8> {
    let mut out = Vec::new();
    for record in records {
        out.extend_from_slice(record.as_bytes());
    }
    out
}
