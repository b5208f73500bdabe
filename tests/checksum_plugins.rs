use file_checksum::{
    check_factory_events, check_gen_events, new_checksum_generator, new_file_checksum_gen_factory,
    next_factory_phase, next_gen_phase, FactoryEvent, FactoryPhase, FileChecksumContext,
    FileChecksumGenFactory, FileChecksumGenerator, GenEvent, GenPhase, RunningSumFactory,
    RunningSumGenerator,
};

fn digest_in_chunks(data: &[u8], sizes: &[usize]) -> String {
    let mut h = new_checksum_generator("RunningSum".to_string(), RunningSumGenerator::new());
    let mut at = 0;
    for &n in sizes {
        h.update(&data[at..at + n]);
        at += n;
    }
    assert_eq!(at, data.len());
    h.finalize();
    let d = h.get_checksum();
    h.destroy();
    d
}

#[test]
fn test_factory() {
    let factory = RunningSumFactory::new(b"CustomChecksumFunc".to_vec());
    let name = "CustomChecksumFuncFactory".to_string();
    let handle = new_file_checksum_gen_factory(name, factory).unwrap();
    assert_eq!(handle.name(), "CustomChecksumFuncFactory");
    let ctx = FileChecksumContext::new(b"./store/000001.sst".to_vec(), Vec::new());
    let mut gen = handle.create_file_checksum_generator(&ctx).unwrap();
    assert_eq!(gen.name(), "CustomChecksumFunc");
    gen.update(b"1");
    gen.update(b"2");
    gen.finalize();
    assert_eq!(gen.get_checksum(), "99");
    gen.destroy();
    handle.destroy();
}

#[test]
fn context_round_trip() {
    let ctx = FileChecksumContext::new(b"000123.sst".to_vec(), b"crc32c".to_vec());
    assert_eq!(ctx.file_name(), "000123.sst");
    assert_eq!(ctx.checksum_func_name(), "crc32c");
    assert_eq!(ctx.file_name(), ctx.file_name());
    assert_eq!(ctx.file_name_bytes(), b"000123.sst".to_vec());
    assert_eq!(ctx.checksum_func_name_bytes(), b"crc32c".to_vec());
}

#[test]
fn context_stops_at_terminator() {
    let ctx = FileChecksumContext::new(b"000123.sst\0rest".to_vec(), b"\0crc32c".to_vec());
    assert_eq!(ctx.file_name(), "000123.sst");
    assert_eq!(ctx.checksum_func_name(), "");
    assert_eq!(ctx.checksum_func_name_bytes(), Vec::<u8>::new());
}

#[test]
fn context_replaces_invalid_utf8() {
    let ctx = FileChecksumContext::new(vec![b'a', 0xff, b'b'], "héllo".as_bytes().to_vec());
    assert_eq!(ctx.file_name(), "a\u{FFFD}b");
    assert_eq!(ctx.checksum_func_name(), "héllo");
}

#[test]
fn running_sum_of_one_two_is_ninety_nine() {
    assert_eq!(digest_in_chunks(&[0x31, 0x32], &[2]), "99");
    assert_eq!(digest_in_chunks(&[0x31, 0x32], &[1, 1]), "99");
}

#[test]
fn running_sum_ignores_chunking() {
    let data: Vec<u8> = (0..=255u8).chain(0..=255u8).collect();
    let whole = digest_in_chunks(&data, &[data.len()]);
    assert_eq!(whole, (2 * (255 * 256 / 2)).to_string());
    assert_eq!(digest_in_chunks(&data, &[0, 1, 100, 0, 311, 100]), whole);
    assert_eq!(digest_in_chunks(&data, &vec![1; 512]), whole);
}

#[test]
fn running_sum_of_nothing_is_zero() {
    assert_eq!(digest_in_chunks(&[], &[]), "0");
    assert_eq!(digest_in_chunks(&[], &[0, 0]), "0");
}

#[test]
fn digest_reads_are_stable() {
    let mut g = RunningSumGenerator::new();
    g.update(&[200, 100, 7]);
    g.finalize();
    let first = g.get_checksum();
    assert_eq!(first, "307");
    assert_eq!(g.get_checksum(), first);
    assert_eq!(g.get_checksum(), first);
}

#[test]
fn digest_before_finalize_is_empty() {
    let mut g = RunningSumGenerator::new();
    g.update(&[1, 2, 3]);
    assert_eq!(g.get_checksum(), "");
}

#[test]
fn fresh_generator_handle_can_be_destroyed() {
    let h = new_checksum_generator("RunningSum".to_string(), RunningSumGenerator::new());
    assert_eq!(h.name(), "RunningSum");
    h.destroy();
    assert_eq!(check_gen_events(&vec![GenEvent::Destroy]), Some(GenPhase::Destroyed));
}

#[test]
fn factory_declines_other_functions() {
    let handle = new_file_checksum_gen_factory("f".to_string(), RunningSumFactory::new(b"sum".to_vec())).unwrap();
    for (file, func) in [("000123.sst", "crc32c"), ("000124.sst", "su"), ("x", "summ")] {
        let ctx = FileChecksumContext::new(file.as_bytes().to_vec(), func.as_bytes().to_vec());
        assert!(handle.create_file_checksum_generator(&ctx).is_none());
    }
    handle.destroy();
}

#[test]
fn factory_builds_for_matching_or_no_preference() {
    let f = RunningSumFactory::new(b"sum".to_vec());
    let ctx = FileChecksumContext::new(b"a.sst".to_vec(), b"sum".to_vec());
    let (name, g) = f.create_file_checksum_generator(&ctx).unwrap();
    assert_eq!(name, "sum");
    assert_eq!(g.get_checksum(), "");
    let ctx = FileChecksumContext::new(b"b.sst".to_vec(), Vec::new());
    let (name, _) = f.create_file_checksum_generator(&ctx).unwrap();
    assert_eq!(name, "sum");
}

#[test]
fn generator_lifecycle_checks() {
    assert_eq!(
        check_gen_events(&vec![GenEvent::Update, GenEvent::Update, GenEvent::Finalize, GenEvent::GetChecksum, GenEvent::GetChecksum, GenEvent::Destroy]),
        Some(GenPhase::Destroyed)
    );
    assert_eq!(check_gen_events(&vec![GenEvent::Update, GenEvent::Finalize]), Some(GenPhase::Finalized));
    assert_eq!(check_gen_events(&vec![]), Some(GenPhase::Open));
    assert_eq!(check_gen_events(&vec![GenEvent::Destroy, GenEvent::Destroy]), None);
    assert_eq!(check_gen_events(&vec![GenEvent::Finalize, GenEvent::Update]), None);
    assert_eq!(check_gen_events(&vec![GenEvent::Finalize, GenEvent::Finalize]), None);
    assert_eq!(check_gen_events(&vec![GenEvent::Destroy, GenEvent::GetChecksum]), None);
    assert_eq!(next_gen_phase(GenPhase::Open, GenEvent::GetChecksum), Some(GenPhase::Open));
    assert_eq!(next_gen_phase(GenPhase::Finalized, GenEvent::Destroy), Some(GenPhase::Destroyed));
    assert_eq!(next_gen_phase(GenPhase::Destroyed, GenEvent::Destroy), None);
}

#[test]
fn factory_lifecycle_checks() {
    assert_eq!(
        check_factory_events(&vec![FactoryEvent::CreateGenerator, FactoryEvent::CreateGenerator, FactoryEvent::Destroy]),
        Some(FactoryPhase::Destroyed)
    );
    assert_eq!(check_factory_events(&vec![FactoryEvent::CreateGenerator]), Some(FactoryPhase::Live));
    assert_eq!(check_factory_events(&vec![FactoryEvent::Destroy, FactoryEvent::CreateGenerator]), None);
    assert_eq!(check_factory_events(&vec![FactoryEvent::Destroy, FactoryEvent::Destroy]), None);
    assert_eq!(next_factory_phase(FactoryPhase::Live, FactoryEvent::Destroy), Some(FactoryPhase::Destroyed));
    assert_eq!(next_factory_phase(FactoryPhase::Destroyed, FactoryEvent::CreateGenerator), None);
}
