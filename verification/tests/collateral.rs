use dcap_qvl_cli::collateral::{
    export_text, Collateral, QuoteCollateralV3Json, EXPORT_FILE_NAME, RECORD_NAME_LEN,
};
use dcap_qvl_cli::failure::Failure;
use dcap_qvl_cli::report::{
    exit_status, report_collateral, report_decoded, report_rendering, report_verified, Output,
    CONFIRMATION,
};

fn sample() -> Collateral {
    Collateral {
        pck_crl_issuer_chain: "pck issuer".to_string(),
        root_ca_crl: vec![1, 2],
        pck_crl: vec![3, 4],
        tcb_info_issuer_chain: "tcb issuer".to_string(),
        tcb_info: "{\"id\":\"SGX\"}".to_string(),
        tcb_info_signature: vec![0xde, 0xad, 0x00, 0x0f],
        qe_identity_issuer_chain: "qe issuer".to_string(),
        qe_identity: "{\"id\":\"QE\"}".to_string(),
        qe_identity_signature: vec![0xbe, 0xef],
        pck_certificate_chain: Some("pck chain".to_string()),
    }
}

const SAMPLE_RENDERING: &str = "QuoteCollateralV3Json { tcb_info_issuer_chain: \"tcb issuer\", \
tcb_info: \"{\\\"id\\\":\\\"SGX\\\"}\", tcb_info_signature: \"dead000f\", \
qe_identity_issuer_chain: \"qe issuer\", qe_identity: \"{\\\"id\\\":\\\"QE\\\"}\", \
qe_identity_signature: \"beef\" }";

const SAMPLE_EXPORT: &str = "{ tcb_info_issuer_chain: \"tcb issuer\", \
tcb_info: \"{\\\"id\\\":\\\"SGX\\\"}\", tcb_info_signature: \"dead000f\", \
qe_identity_issuer_chain: \"qe issuer\", qe_identity: \"{\\\"id\\\":\\\"QE\\\"}\", \
qe_identity_signature: \"beef\" }";

#[test]
fn export_record_keeps_texts_and_hex_encodes_signatures() {
    let record = QuoteCollateralV3Json::from_collateral(sample());
    assert_eq!(record.tcb_info_issuer_chain(), "tcb issuer");
    assert_eq!(record.tcb_info(), "{\"id\":\"SGX\"}");
    assert_eq!(record.tcb_info_signature(), "dead000f");
    assert_eq!(record.qe_identity_issuer_chain(), "qe issuer");
    assert_eq!(record.qe_identity(), "{\"id\":\"QE\"}");
    assert_eq!(record.qe_identity_signature(), "beef");
}

#[test]
fn export_record_signatures_match_the_hex_crate() {
    let mut collateral = sample();
    let mut signature: Vec<u8> = Vec::new();
    for b in 0..=255u8 {
        signature.push(b);
    }
    collateral.tcb_info_signature = signature.clone();
    collateral.qe_identity_signature = vec![];
    let record = QuoteCollateralV3Json::from_collateral(collateral);
    assert_eq!(record.tcb_info_signature(), hex::encode(&signature));
    assert_eq!(record.tcb_info_signature().len(), 512);
    assert_eq!(record.qe_identity_signature(), "");
}

#[test]
fn rendering_of_the_export_record() {
    let record = QuoteCollateralV3Json::from_collateral(sample());
    assert_eq!(record.rendering(), SAMPLE_RENDERING);
    assert_eq!(record.rendering(), format!("{:?}", record));
}

#[test]
fn record_name_is_twenty_two_bytes() {
    assert_eq!(RECORD_NAME_LEN, 22);
    assert_eq!("QuoteCollateralV3Json ".len(), RECORD_NAME_LEN);
}

#[test]
fn export_file_name() {
    assert_eq!(EXPORT_FILE_NAME, "quote_collateral.json");
}

#[test]
fn export_text_drops_the_record_name() {
    assert_eq!(export_text(SAMPLE_RENDERING), Some(SAMPLE_EXPORT.to_string()));
    assert_eq!(
        export_text("QuoteCollateralV3Json { a: 1 }"),
        Some("{ a: 1 }".to_string())
    );
}

#[test]
fn export_text_of_exactly_the_name_is_empty() {
    assert_eq!(export_text("QuoteCollateralV3Json "), Some(String::new()));
}

#[test]
fn export_text_of_a_short_rendering_is_absent() {
    assert_eq!(export_text(""), None);
    assert_eq!(export_text("QuoteCollateralV3Json"), None);
}

#[test]
fn export_text_is_cut_by_bytes() {
    // Twenty ASCII bytes and one character of two bytes make twenty-two.
    let rendering = "01234567890123456789\u{e9}rest";
    assert_eq!(export_text(rendering), Some("rest".to_string()));
    // Twenty-one ASCII bytes put the cut in the middle of the character.
    let rendering = "012345678901234567890\u{e9}rest";
    assert_eq!(export_text(rendering), None);
}

#[test]
fn decoded_quote_goes_to_standard_output() {
    assert_eq!(
        report_decoded(Ok("{\"header\":1}".to_string())),
        Ok(Output { stdout: "{\"header\":1}".to_string(), diagnostic: None, file: None })
    );
}

#[test]
fn decode_failure_is_handed_on() {
    assert_eq!(
        report_decoded(Err(Failure::Parse("bad".to_string()))),
        Err(Failure::Parse("bad".to_string()))
    );
}

#[test]
fn verified_report_comes_with_the_confirmation() {
    assert_eq!(CONFIRMATION, "Quote verified");
    assert_eq!(
        report_verified(Ok("{\"status\":\"UpToDate\"}".to_string())),
        Ok(Output {
            stdout: "{\"status\":\"UpToDate\"}".to_string(),
            diagnostic: Some("Quote verified".to_string()),
            file: None,
        })
    );
}

#[test]
fn verification_failure_emits_nothing() {
    assert_eq!(report_verified(Err(Failure::Verify)), Err(Failure::Verify));
}

#[test]
fn rendering_is_printed_and_exported() {
    assert_eq!(
        report_rendering(SAMPLE_RENDERING.to_string()),
        Ok(Output {
            stdout: SAMPLE_RENDERING.to_string(),
            diagnostic: None,
            file: Some(SAMPLE_EXPORT.to_string()),
        })
    );
}

#[test]
fn rendering_too_short_to_export_is_a_failure() {
    assert_eq!(report_rendering("short".to_string()), Err(Failure::Export));
}

#[test]
fn collateral_report_of_a_record() {
    let record = QuoteCollateralV3Json::from_collateral(sample());
    assert_eq!(
        report_collateral(&record),
        Ok(Output {
            stdout: SAMPLE_RENDERING.to_string(),
            diagnostic: None,
            file: Some(SAMPLE_EXPORT.to_string()),
        })
    );
}

#[test]
fn exit_status_is_zero_only_for_success() {
    let success = Ok(Output { stdout: String::new(), diagnostic: None, file: None });
    assert_eq!(exit_status(&success), 0);
    assert_eq!(exit_status(&Err(Failure::Verify)), 1);
    assert_eq!(exit_status(&Err(Failure::Retrieval("timed out".to_string()))), 1);
}

#[test]
fn step_phrases() {
    assert_eq!(Failure::Read("x".to_string()).phrase(), Some("Failed to read quote file"));
    assert_eq!(
        Failure::Decode(dcap_qvl_cli::normalize::DecodeError::OddLength).phrase(),
        Some("Failed to decode quote file")
    );
    assert_eq!(Failure::Parse("x".to_string()).phrase(), Some("Failed to parse quote"));
    assert_eq!(Failure::Serialize("x".to_string()).phrase(), Some("Failed to serialize quote"));
    assert_eq!(Failure::Verify.phrase(), Some("Failed to verify quote"));
    assert_eq!(Failure::Export.phrase(), Some("Failed to export collateral"));
    assert_eq!(Failure::OutOfTurn.phrase(), Some("Unexpected event"));
    assert_eq!(Failure::Retrieval("x".to_string()).phrase(), None);
    assert_eq!(Failure::Clock("x".to_string()).phrase(), None);
}

#[test]
fn causes() {
    assert_eq!(
        Failure::Read("no such file".to_string()).cause(),
        Some("no such file".to_string())
    );
    assert_eq!(Failure::Parse("p".to_string()).cause(), Some("p".to_string()));
    assert_eq!(Failure::Serialize("s".to_string()).cause(), Some("s".to_string()));
    assert_eq!(Failure::Retrieval("r".to_string()).cause(), Some("r".to_string()));
    assert_eq!(Failure::Clock("c".to_string()).cause(), Some("c".to_string()));
    assert_eq!(
        Failure::Decode(dcap_qvl_cli::normalize::DecodeError::OddLength).cause(),
        Some("Odd number of digits".to_string())
    );
    assert_eq!(Failure::Verify.cause(), None);
    assert_eq!(Failure::Export.cause(), None);
    assert_eq!(Failure::OutOfTurn.cause(), None);
}
