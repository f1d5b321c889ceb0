use solana_archiver::data_archiver::DispatcherStep;
use solana_archiver::data_archiver::EncoderManager;
use solana_archiver::data_archiver::FeedEvent;
use solana_archiver::data_archiver::MessageDispatcher;
use solana_archiver::naming::generate_file_name;
use solana_archiver::segment_codec::decompress_artifact;

const T0: i64 = 1_700_000_000;

fn expect_invalid_config<T>(r: Result<T, solana_archiver::ArchiveError>) {
    match r {
        Ok(_) => panic!("a bad configuration must be rejected"),
        Err(e) => assert!(e.is_invalid_config()),
    }
}

#[test]
fn configuration_is_validated_before_any_message() {
    expect_invalid_config(EncoderManager::new(0, T0));
    expect_invalid_config(EncoderManager::new(-5, T0));
    expect_invalid_config(EncoderManager::with_limits(1, 0, T0));
    assert!(EncoderManager::new(1, T0).is_ok());
    assert!(EncoderManager::with_limits(10, 1000, T0).is_ok());
    expect_invalid_config(MessageDispatcher::new(0, T0));
    assert!(MessageDispatcher::new(1, T0).is_ok());
}

#[test]
fn accumulation_without_rollover() {
    let mut m = EncoderManager::with_limits(10, 1000, T0).unwrap();
    assert!(!m.nearing_max_volume());
    m.write_message(String::from("0123456789"));
    assert_eq!(m.segment.len(), 10);
    assert!(!m.nearing_max_volume());
    let out = m.process_message(String::from("abc"), T0 + 1).unwrap();
    assert!(out.is_none());
    assert_eq!(m.segment.len(), 13);
    assert_eq!(m.volume, 1);
    assert_eq!(m.bucket_start_time, T0);
}

#[test]
fn size_rollover_splits_volumes_within_one_bucket() {
    // Bucket period 10 min, cap 1,000 bytes: crossing the cap produces
    // volume 2, then 3, all named for the same bucket.
    let mut m = EncoderManager::with_limits(10, 1000, T0).unwrap();
    let msg = "x".repeat(300);
    let mut artifacts = Vec::new();
    for i in 0..9 {
        let now = T0 + i; // well within the 10-minute bucket
        if let Some(a) = m.process_message(msg.clone(), now).unwrap() {
            artifacts.push(a);
        }
    }
    // Sizes before each submission: 0,300,600,900,1200*,300,600,900,1200*.
    assert_eq!(artifacts.len(), 2);
    assert_eq!(
        artifacts[0].final_name,
        generate_file_name(T0, 10, 1, false)
    );
    assert_eq!(
        artifacts[1].final_name,
        generate_file_name(T0, 10, 2, false)
    );
    assert_eq!(m.volume, 3);
    assert_eq!(m.bucket_start_time, T0);
    let first = decompress_artifact(&artifacts[0].data).unwrap();
    assert_eq!(first.len(), 1200);
    let second = decompress_artifact(&artifacts[1].data).unwrap();
    assert_eq!(second.len(), 1200);
}

#[test]
fn time_rollover_opens_a_new_bucket_at_volume_one() {
    // Cap effectively unreachable, period one minute: after a minute the
    // next submission finalizes the old bucket's volume and restarts at 1.
    let mut m = EncoderManager::with_limits(1, 1_000_000_000, T0).unwrap();
    assert!(m.process_message(String::from("hello "), T0).unwrap().is_none());
    assert!(m
        .process_message(String::from("again"), T0 + 59)
        .unwrap()
        .is_none());
    let art = m
        .process_message(String::from("later"), T0 + 61)
        .unwrap()
        .expect("the elapsed bucket must be finalized");
    assert_eq!(art.final_name, generate_file_name(T0, 1, 1, false));
    assert_eq!(art.temp_name, generate_file_name(T0, 1, 1, true));
    assert_eq!(m.bucket_start_time, T0 + 61);
    assert_eq!(m.volume, 1);
    let plain = decompress_artifact(&art.data).unwrap();
    assert_eq!(plain, b"hello again".to_vec());
    // The new bucket's own finalize is named for the new start, volume 1.
    let last = m.finish_and_create_new().unwrap();
    assert_eq!(last.final_name, generate_file_name(T0 + 61, 1, 1, false));
    assert_eq!(decompress_artifact(&last.data).unwrap(), b"later".to_vec());
}

#[test]
fn seven_message_scenario() {
    // Period one minute, cap 50 bytes. Five 10-byte messages, a sixth
    // 10-byte message at t+30, a seventh 5-byte message at t+61:
    // Volume_1 holds the first five, Volume_2 (same bucket) holds the
    // sixth, and the new bucket's Volume_1 holds the seventh.
    let mut m = EncoderManager::with_limits(1, 50, T0).unwrap();
    for _ in 0..5 {
        let out = m.process_message("0123456789".to_string(), T0).unwrap();
        assert!(out.is_none());
    }
    assert_eq!(m.segment.len(), 50);

    let a1 = m
        .process_message("ABCDEFGHIJ".to_string(), T0 + 30)
        .unwrap()
        .expect("the 50-byte boundary must roll the volume over");
    assert_eq!(a1.final_name, generate_file_name(T0, 1, 1, false));
    assert_eq!(a1.uncompressed_len, 50);
    assert_eq!(
        decompress_artifact(&a1.data).unwrap(),
        "0123456789".repeat(5).into_bytes()
    );
    assert_eq!(m.volume, 2);
    assert_eq!(m.bucket_start_time, T0);

    let a2 = m
        .process_message("12345".to_string(), T0 + 61)
        .unwrap()
        .expect("the elapsed bucket must be finalized");
    assert_eq!(a2.final_name, generate_file_name(T0, 1, 2, false));
    assert_eq!(decompress_artifact(&a2.data).unwrap(), b"ABCDEFGHIJ".to_vec());
    assert_eq!(m.bucket_start_time, T0 + 61);
    assert_eq!(m.volume, 1);

    let a3 = m.finish_and_create_new().unwrap();
    assert_eq!(a3.final_name, generate_file_name(T0 + 61, 1, 1, false));
    assert_eq!(decompress_artifact(&a3.data).unwrap(), b"12345".to_vec());
}

#[test]
fn concatenated_artifacts_reproduce_the_stream() {
    // Feed a stream across several rollovers, then decompress every
    // artifact with zstd itself and concatenate in publication order.
    let mut m = EncoderManager::with_limits(1, 64, T0).unwrap();
    let mut artifacts = Vec::new();
    let mut expected: Vec<u8> = Vec::new();
    for i in 0..40 {
        let msg = format!("message number {:03} and some padding;", i);
        expected.extend_from_slice(msg.as_bytes());
        let now = T0 + i; // stays inside the first bucket
        if let Some(a) = m.process_message(msg, now).unwrap() {
            artifacts.push(a);
        }
    }
    artifacts.push(m.finish_and_create_new().unwrap());
    let mut rebuilt: Vec<u8> = Vec::new();
    for a in &artifacts {
        let plain = zstd::stream::decode_all(a.data.as_slice()).unwrap();
        rebuilt.extend_from_slice(&plain);
    }
    assert_eq!(rebuilt, expected);
}

#[test]
fn artifacts_are_really_compressed() {
    let mut m = EncoderManager::with_limits(1, 1_000_000, T0).unwrap();
    m.write_message("y".repeat(10_000));
    let art = m.finish_and_create_new().unwrap();
    // A zstd frame starts with the magic number and, for repetitive input,
    // is far smaller than the cleartext.
    assert_eq!(&art.data[0..4], &[0x28, 0xB5, 0x2F, 0xFD]);
    assert_eq!(art.uncompressed_len, 10_000);
    assert!(art.data.len() < 1_000);
    assert_eq!(
        decompress_artifact(&art.data).unwrap(),
        "y".repeat(10_000).into_bytes()
    );
}

#[test]
fn empty_segment_still_finalizes_cleanly() {
    let mut m = EncoderManager::new(1, T0).unwrap();
    let art = m.finish_and_create_new().unwrap();
    assert_eq!(art.final_name, generate_file_name(T0, 1, 1, false));
    assert_eq!(decompress_artifact(&art.data).unwrap(), Vec::<u8>::new());
}

#[test]
fn decompressing_garbage_is_a_codec_failure() {
    let garbage = vec![1u8, 2, 3, 4, 5, 6, 7, 8];
    let err = decompress_artifact(&garbage).unwrap_err();
    assert!(err.is_codec_failure());
    assert!(!err.is_invalid_config());
}

#[test]
fn dispatcher_reacts_to_each_event() {
    let mut d = MessageDispatcher::with_limits(1, 1_000_000, T0).unwrap();
    match d
        .handle_event(FeedEvent::Message("one".to_string()), T0)
        .unwrap()
    {
        DispatcherStep::Running(out) => assert!(out.is_none()),
        DispatcherStep::Stopped(_) => panic!("a message must not stop the run"),
    }
    // A reconnect request leaves the engine untouched: same bucket, same
    // volume, same accumulated bytes.
    let before_len = d.encoder_manager.segment.len();
    match d.handle_event(FeedEvent::ReconnectNeeded, T0 + 1).unwrap() {
        DispatcherStep::Running(out) => assert!(out.is_none()),
        DispatcherStep::Stopped(_) => panic!("a reconnect must not stop the run"),
    }
    assert_eq!(d.encoder_manager.segment.len(), before_len);
    assert_eq!(d.encoder_manager.bucket_start_time, T0);
    assert_eq!(d.encoder_manager.volume, 1);
    match d
        .handle_event(FeedEvent::Message("two".to_string()), T0 + 2)
        .unwrap()
    {
        DispatcherStep::Running(out) => assert!(out.is_none()),
        DispatcherStep::Stopped(_) => panic!("a message must not stop the run"),
    }
    // Shutdown finalizes exactly the submitted bytes and stops.
    match d.handle_event(FeedEvent::Shutdown, T0 + 3).unwrap() {
        DispatcherStep::Running(_) => panic!("shutdown must stop the run"),
        DispatcherStep::Stopped(art) => {
            assert_eq!(art.final_name, generate_file_name(T0, 1, 1, false));
            assert_eq!(decompress_artifact(&art.data).unwrap(), b"onetwo".to_vec());
        }
    }
}

#[test]
fn closed_channel_finalizes_like_shutdown() {
    let mut d = MessageDispatcher::with_limits(1, 1_000_000, T0).unwrap();
    match d
        .handle_event(FeedEvent::Message("tail".to_string()), T0)
        .unwrap()
    {
        DispatcherStep::Running(out) => assert!(out.is_none()),
        DispatcherStep::Stopped(_) => panic!("a message must not stop the run"),
    }
    match d.handle_event(FeedEvent::ChannelClosed, T0 + 1).unwrap() {
        DispatcherStep::Running(_) => panic!("a closed channel must stop the run"),
        DispatcherStep::Stopped(art) => {
            assert_eq!(decompress_artifact(&art.data).unwrap(), b"tail".to_vec());
        }
    }
}

#[test]
fn dispatcher_forwards_submissions() {
    let mut d = MessageDispatcher::with_limits(1, 10, T0).unwrap();
    assert!(d
        .process_message("0123456789".to_string(), T0)
        .unwrap()
        .is_none());
    let art = d
        .process_message("next".to_string(), T0 + 1)
        .unwrap()
        .expect("the full segment must roll over");
    assert_eq!(art.final_name, generate_file_name(T0, 1, 1, false));
    assert_eq!(d.encoder_manager.volume, 2);
    let last = d.finish_and_create_new().unwrap();
    assert_eq!(last.final_name, generate_file_name(T0, 1, 2, false));
    assert_eq!(decompress_artifact(&last.data).unwrap(), b"next".to_vec());
}
