use jp2k::{DecodeParams, EngineStep, Error, ErrorKind, Session, Stage, Teardown};

fn count(teardowns: &[Teardown], t: Teardown) -> usize {
    teardowns.iter().filter(|x| **x == t).count()
}

#[test]
fn region_set_failure_destroys_each_handle_exactly_once() {
    let params = DecodeParams::default().with_decoding_area(0, 0, 16, 16);
    let mut session = Session::new(&params);
    let mut all: Vec<Teardown> = Vec::new();

    assert_eq!(session.next_step(), Some(EngineStep::CreateDecoder));
    let o = session.advance(true);
    all.extend_from_slice(&o.teardown);
    assert_eq!(session.next_step(), Some(EngineStep::SetupDecoder));
    let o = session.advance(true);
    all.extend_from_slice(&o.teardown);
    assert_eq!(session.next_step(), Some(EngineStep::ReadHeader));
    let o = session.advance(true);
    all.extend_from_slice(&o.teardown);
    assert_eq!(session.next_step(), Some(EngineStep::SetRegion));

    // The region-set call fails: the session aborts.
    let o = session.advance(false);
    all.extend_from_slice(&o.teardown);
    assert_eq!(o.error, Some(ErrorKind::RegionSet));
    assert_eq!(session.stage, Stage::Aborted);
    assert_eq!(session.next_step(), None);

    // Over the whole run, stream and decoder were each destroyed exactly
    // once, the image too, and nothing else was ordered.
    assert_eq!(count(&all, Teardown::DestroyStream), 1);
    assert_eq!(count(&all, Teardown::DestroyDecoder), 1);
    assert_eq!(count(&all, Teardown::DestroyImage), 1);
    assert_eq!(all.len(), 3);
    // Destruction order: stream, then decoder, then image.
    assert_eq!(
        all,
        vec![Teardown::DestroyStream, Teardown::DestroyDecoder, Teardown::DestroyImage]
    );
}

#[test]
fn successful_run_visits_every_configured_step() {
    let params = DecodeParams::default()
        .with_num_threads(2)
        .with_decoding_area(0, 0, 8, 8);
    let mut session = Session::new(&params);
    let expected: [EngineStep; 6] = [
        EngineStep::CreateDecoder,
        EngineStep::SetupDecoder,
        EngineStep::ConfigureThreads,
        EngineStep::ReadHeader,
        EngineStep::SetRegion,
        EngineStep::Decode,
    ];
    for step in expected {
        assert_eq!(session.next_step(), Some(step));
        let o = session.advance(true);
        assert!(o.teardown.is_empty());
        assert_eq!(o.error, None);
    }
    assert_eq!(session.stage, Stage::Complete);
    let teardown = session.finish();
    assert_eq!(
        teardown,
        vec![Teardown::DestroyStream, Teardown::DestroyDecoder, Teardown::DestroyImage]
    );
    assert_eq!(session.stage, Stage::Done);
    assert_eq!(session.next_step(), None);
}

#[test]
fn optional_steps_are_skipped_when_not_configured() {
    let mut session = Session::new(&DecodeParams::default());
    assert_eq!(session.next_step(), Some(EngineStep::CreateDecoder));
    session.advance(true);
    assert_eq!(session.next_step(), Some(EngineStep::SetupDecoder));
    session.advance(true);
    assert_eq!(session.next_step(), Some(EngineStep::ReadHeader));
    session.advance(true);
    assert_eq!(session.next_step(), Some(EngineStep::Decode));
    session.advance(true);
    assert_eq!(session.stage, Stage::Complete);
}

#[test]
fn decoder_creation_failure_destroys_only_the_stream() {
    let mut session = Session::new(&DecodeParams::default());
    let o = session.advance(false);
    assert_eq!(o.teardown, vec![Teardown::DestroyStream]);
    assert_eq!(o.error, Some(ErrorKind::DecoderInstantiation));
    assert_eq!(session.stage, Stage::Aborted);
}

#[test]
fn setup_failure_destroys_stream_and_decoder() {
    let mut session = Session::new(&DecodeParams::default());
    session.advance(true);
    let o = session.advance(false);
    assert_eq!(o.teardown, vec![Teardown::DestroyStream, Teardown::DestroyDecoder]);
    assert_eq!(o.error, Some(ErrorKind::DecoderSetup));
}

#[test]
fn thread_configuration_failure_destroys_stream_and_decoder() {
    let mut session = Session::new(&DecodeParams::default().with_num_threads(4));
    session.advance(true);
    session.advance(true);
    assert_eq!(session.next_step(), Some(EngineStep::ConfigureThreads));
    let o = session.advance(false);
    assert_eq!(o.teardown, vec![Teardown::DestroyStream, Teardown::DestroyDecoder]);
    assert_eq!(o.error, Some(ErrorKind::ThreadConfiguration));
}

#[test]
fn header_read_failure_destroys_stream_and_decoder() {
    let mut session = Session::new(&DecodeParams::default());
    session.advance(true);
    session.advance(true);
    let o = session.advance(false);
    assert_eq!(o.teardown, vec![Teardown::DestroyStream, Teardown::DestroyDecoder]);
    assert_eq!(o.error, Some(ErrorKind::HeaderRead));
}

#[test]
fn decode_failure_destroys_all_three_handles() {
    let mut session = Session::new(&DecodeParams::default());
    session.advance(true);
    session.advance(true);
    session.advance(true);
    assert_eq!(session.next_step(), Some(EngineStep::Decode));
    let o = session.advance(false);
    assert_eq!(
        o.teardown,
        vec![Teardown::DestroyStream, Teardown::DestroyDecoder, Teardown::DestroyImage]
    );
    assert_eq!(o.error, Some(ErrorKind::DecodeFailure));
}

#[test]
fn each_error_kind_surfaces_its_own_error() {
    assert_eq!(
        ErrorKind::DecoderInstantiation.to_error(),
        Error::FfiError("Codec instantiation failed.")
    );
    assert_eq!(
        ErrorKind::DecoderSetup.to_error(),
        Error::FfiError("Setting up the decoder failed.")
    );
    assert_eq!(
        ErrorKind::ThreadConfiguration.to_error(),
        Error::FfiError("Could not set specified threads.")
    );
    assert_eq!(ErrorKind::HeaderRead.to_error(), Error::ReadHeader);
    assert_eq!(
        ErrorKind::RegionSet.to_error(),
        Error::FfiError("Setting up the decoding area failed.")
    );
    assert_eq!(
        ErrorKind::DecodeFailure.to_error(),
        Error::FfiError("Failed to read image.")
    );
    assert_eq!(ErrorKind::HeaderRead.to_error().message(), "Failed to read header.");
}
