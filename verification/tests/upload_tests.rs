use green_site_backend::codec::split_name;
use green_site_backend::upload::{assemble_upload, plan_upload, UploadError};

#[test]
fn upload_with_no_chunks_is_no_data() {
    let chunks: Vec<Vec<u8>> = Vec::new();
    match assemble_upload(&chunks, Some(b"notes.txt"), 1) {
        Err(UploadError::NoData) => {}
        _ => panic!("an upload without data must fail with the no-data outcome"),
    }
}

#[test]
fn upload_with_empty_chunks_is_no_data() {
    let chunks: Vec<Vec<u8>> = vec![Vec::new(), Vec::new()];
    match assemble_upload(&chunks, Some(b"notes.txt"), 1) {
        Err(UploadError::NoData) => {}
        _ => panic!("an upload whose chunks hold no bytes must fail with the no-data outcome"),
    }
}

#[test]
fn upload_without_filename_is_bad_file_name() {
    let chunks = vec![b"hello".to_vec()];
    match assemble_upload(&chunks, None, 1) {
        Err(UploadError::BadFileName) => {}
        _ => panic!("an upload without a declared filename must fail with the bad-filename outcome"),
    }
}

#[test]
fn empty_upload_without_filename_is_no_data_first() {
    let chunks: Vec<Vec<u8>> = Vec::new();
    match assemble_upload(&chunks, None, 1) {
        Err(UploadError::NoData) => {}
        _ => panic!("the empty buffer is rejected before the missing filename"),
    }
}

#[test]
fn upload_concatenates_chunks_in_order() {
    let chunks = vec![b"he".to_vec(), b"l".to_vec(), b"lo".to_vec()];
    let plan = match assemble_upload(&chunks, Some(b"notes.txt"), 42) {
        Ok(plan) => plan,
        _ => panic!("an upload with data and a filename must succeed"),
    };
    assert_eq!(plan.data, b"hello".to_vec());
    assert_eq!(plan.remote_name, b"42-notes.txt".to_vec());
}

#[test]
fn upload_remote_name_decodes_back_to_display_name() {
    let chunks = vec![b"content".to_vec()];
    let plan = match assemble_upload(&chunks, Some(b"report-final.pdf"), 31337) {
        Ok(plan) => plan,
        _ => panic!("an upload with data and a filename must succeed"),
    };
    let (id, name) = split_name(&plan.remote_name).expect("the stored name must decode");
    assert_eq!(id, b"31337".to_vec());
    assert_eq!(name, b"report-final.pdf".to_vec());
}

#[test]
fn planned_upload_mints_a_decodable_identifier() {
    let chunks = vec![b"hello".to_vec()];
    let plan = match plan_upload(&chunks, Some(b"notes.txt")) {
        Ok(plan) => plan,
        _ => panic!("an upload with data and a filename must succeed"),
    };
    assert_eq!(plan.data, b"hello".to_vec());
    let (id, name) = split_name(&plan.remote_name).expect("the stored name must decode");
    assert_eq!(name, b"notes.txt".to_vec());
    let id_text = String::from_utf8(id).expect("identifier digits are ASCII");
    id_text.parse::<u128>().expect("the identifier is a decimal 128-bit value");
}

#[test]
fn planned_upload_rejects_like_assemble() {
    let empty: Vec<Vec<u8>> = Vec::new();
    match plan_upload(&empty, Some(b"n")) {
        Err(UploadError::NoData) => {}
        _ => panic!("an upload without data must fail with the no-data outcome"),
    }
    match plan_upload(&vec![b"x".to_vec()], None) {
        Err(UploadError::BadFileName) => {}
        _ => panic!("an upload without a declared filename must fail with the bad-filename outcome"),
    }
}
