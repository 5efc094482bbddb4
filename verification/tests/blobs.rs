use bytes::Bytes;
use pleiades_worker::data_manager::posted_blob;
use pleiades_worker::fetcher::{downloaded_blob, uploaded_blob};
use pleiades_worker::pleiades_type::Blob;
use pleiades_worker::rm::contractor::{after_contract, after_info, ContractStep, JobMetadata};

#[test]
fn upload_then_download_gives_the_data_back() {
    let data = Bytes::from("hello world");
    let stored = uploaded_blob("d1".to_string(), data.clone());
    assert_eq!(stored.id, "d1");
    let fetched = downloaded_blob(stored.id.clone(), Some(stored.data.clone())).unwrap();
    assert_eq!(fetched.data, data);
    assert_eq!(downloaded_blob("missing".to_string(), None), None);
}

#[test]
fn posted_blob_keeps_the_posted_data() {
    let stored = Blob { id: "new-id".to_string(), data: Bytes::from("copy") };
    let b = posted_blob(stored, Bytes::from("posted"));
    assert_eq!(b, Blob { id: "new-id".to_string(), data: Bytes::from("posted") });
}

#[test]
fn contract_steps() {
    assert_eq!(after_contract(Err("down".to_string())), ContractStep::Done(Err("down".to_string())));
    assert_eq!(after_contract(Ok(None)), ContractStep::Done(Ok(None)));
    assert_eq!(after_contract(Ok(Some("j9".to_string()))), ContractStep::FetchInfo("j9".to_string()));
    assert_eq!(after_info(Err("gone".to_string())), Err("gone".to_string()));
    assert_eq!(
        after_info(Ok(("j9".to_string(), "l1".to_string(), "d3".to_string()))),
        Ok(Some(JobMetadata {
            id: "j9".to_string(),
            lambda_id: "l1".to_string(),
            input_id: "d3".to_string(),
        }))
    );
}
