use edsm_dumps_model::array_decoder::collector::Collector;
use edsm_dumps_model::array_decoder::file::is_gzip;
use edsm_dumps_model::array_decoder::line::{byte_is_space, payload_span, record_spans, trim_span};
use edsm_dumps_model::array_decoder::parallel::{
    get_worker_cnt, parse, split_blocks, worker_count, ChunkParser, ChunkReader, ChunkStep,
    InputReader, ParallelDecoder, Pull, ReadAction,
};
use edsm_dumps_model::array_decoder::{ArrayDecoder, DecodeError, NopProgress, Progress};

fn number(bs: &[u8]) -> Result<u64, String> {
    let text = std::str::from_utf8(bs).map_err(|e| format!("{}", e))?;
    text.parse::<u64>().map_err(|e| format!("{}", e))
}

fn records_of(input: &[u8]) -> Vec<Vec<u8>> {
    record_spans(input)
        .into_iter()
        .map(|(a, b)| input[a..b].to_vec())
        .collect()
}

fn numbered_lines(n: u64) -> Vec<u8> {
    let mut text = String::from("[\n");
    for i in 0..n {
        text.push_str(&format!("{},\n", i));
    }
    text.push_str("]\n");
    text.into_bytes()
}

/// Runs the whole pipeline in one thread; the results of the blocks reach the
/// collector in the order that `arrival` gives to their indices.
fn decode_all(
    input: &[u8],
    chunk_size: usize,
    arrival: &dyn Fn(usize) -> Vec<usize>,
) -> (Vec<u64>, Vec<DecodeError>, usize) {
    let blocks = split_blocks(input, chunk_size);
    let mut parser = ChunkParser::new();
    let mut results: Vec<Option<Result<Vec<u64>, DecodeError>>> = Vec::new();
    for block in blocks {
        let (r, _) = parse(&mut parser, Ok(block), &number);
        results.push(Some(r));
    }
    let mut collector: Collector<Vec<u64>> = Collector::new();
    let mut decoder: ParallelDecoder<u64> = ParallelDecoder::start();
    let mut errors = Vec::new();
    for idx in arrival(results.len()) {
        let r = results[idx].take().unwrap();
        for out in collector.accept(idx, r) {
            if let Err(e) = decoder.receive(Some(out)) {
                errors.push(e);
            }
        }
    }
    if let Err(e) = collector.finish() {
        if let Err(e) = decoder.receive(Some(Err(e))) {
            errors.push(e);
        }
    }
    let _ = decoder.receive(None);
    let mut values = Vec::new();
    let mut ends = 0;
    loop {
        match decoder.read_entry() {
            Pull::Entry(v) => values.push(v),
            Pull::Wait => panic!("an ended stream does not wait"),
            Pull::End => {
                ends += 1;
                if ends == 3 {
                    break;
                }
            }
        }
    }
    (values, errors, ends)
}

fn ascending(n: usize) -> Vec<usize> {
    (0..n).collect()
}

fn descending(n: usize) -> Vec<usize> {
    (0..n).rev().collect()
}

fn interleaved(n: usize, workers: usize) -> Vec<usize> {
    let mut order = Vec::new();
    for w in (0..workers).rev() {
        let mut i = w;
        while i < n {
            order.push(i);
            i += workers;
        }
    }
    order
}

#[test]
fn blank_bytes_are_the_ascii_white_space() {
    for b in 0u8..=255 {
        let expected = matches!(b, b' ' | b'\t' | b'\n' | 0x0b | 0x0c | b'\r');
        assert_eq!(byte_is_space(b), expected, "byte {}", b);
    }
}

#[test]
fn trim_span_drops_blank_ends() {
    let bs = b"xx \t {\"a\": 1} \r\nyy";
    assert_eq!(trim_span(bs, 2, 16), (5, 13));
    assert_eq!(trim_span(bs, 0, bs.len()), (0, bs.len()));
    assert_eq!(trim_span(b"   ", 0, 3), (3, 3));
    assert_eq!(trim_span(b"", 0, 0), (0, 0));
}

#[test]
fn payload_span_strips_one_comma() {
    assert_eq!(payload_span(b"  {\"a\":1},\n", 0, 11), Some((2, 9)));
    assert_eq!(payload_span(b"{\"a\":1},,", 0, 9), Some((0, 8)));
    assert_eq!(payload_span(b"{\"a\":1}", 0, 7), Some((0, 7)));
}

#[test]
fn payload_span_skips_brackets_and_blank_lines() {
    assert_eq!(payload_span(b"[\n", 0, 2), None);
    assert_eq!(payload_span(b" ] \r\n", 0, 5), None);
    assert_eq!(payload_span(b"   \n", 0, 4), None);
    assert_eq!(payload_span(b",", 0, 1), None);
    assert_eq!(payload_span(b"", 0, 0), None);
    assert_eq!(payload_span(b"[]", 0, 2), Some((0, 2)));
    assert_eq!(payload_span(b"[,", 0, 2), Some((0, 1)));
}

#[test]
fn record_spans_follow_the_lines() {
    let input = b"[\n1,\n\n  22 ,\n333\n]\n";
    assert_eq!(record_spans(input), vec![(2, 3), (8, 11), (13, 16)]);
    assert_eq!(
        records_of(input),
        vec![b"1".to_vec(), b"22 ".to_vec(), b"333".to_vec()]
    );
}

#[test]
fn record_spans_take_a_last_line_without_newline() {
    assert_eq!(records_of(b"1,\n2"), vec![b"1".to_vec(), b"2".to_vec()]);
    assert_eq!(records_of(b""), Vec::<Vec<u8>>::new());
    assert_eq!(records_of(b"\n\n"), Vec::<Vec<u8>>::new());
}

#[test]
fn empty_array_has_no_record() {
    let (values, errors, ends) = decode_all(b"[\n]\n", 8, &ascending);
    assert!(values.is_empty());
    assert!(errors.is_empty());
    assert_eq!(ends, 3);
    for c in 1..6 {
        let (values, errors, _) = decode_all(b"[\n]\n", c, &ascending);
        assert!(values.is_empty());
        assert!(errors.is_empty());
    }
}

#[test]
fn bare_lines_decode_as_wrapped_ones() {
    let bare = b"10\n20\n30\n";
    let wrapped = b"[\n10,\n20,\n30\n]\n";
    assert_eq!(records_of(bare), records_of(&wrapped[..]).iter().map(|r| r.clone()).collect::<Vec<_>>());
    let a = decode_all(bare, 4, &ascending);
    let b = decode_all(wrapped, 4, &ascending);
    assert_eq!(a.0, vec![10, 20, 30]);
    assert_eq!(a.0, b.0);
    assert!(a.1.is_empty() && b.1.is_empty());
}

#[test]
fn chunk_reader_cuts_behind_the_last_newline() {
    let mut reader = ChunkReader::new(8);
    match reader.read_chunk() {
        ChunkStep::Need(n) => assert_eq!(n, 8),
        _ => panic!("an empty reader asks for a full buffer"),
    }
    reader.feed(b"ab\ncd\nef");
    match reader.read_chunk() {
        ChunkStep::Chunk(block) => assert_eq!(block, b"ab\ncd\n".to_vec()),
        _ => panic!("a full buffer gives a block"),
    }
    match reader.read_chunk() {
        ChunkStep::Need(n) => assert_eq!(n, 6),
        _ => panic!("the leftover leaves room"),
    }
    reader.feed(b"g\n");
    match reader.read_chunk() {
        ChunkStep::Need(n) => assert_eq!(n, 4),
        _ => panic!("the buffer is not full yet"),
    }
    reader.feed(b"");
    match reader.read_chunk() {
        ChunkStep::Chunk(block) => assert_eq!(block, b"efg\n".to_vec()),
        _ => panic!("the end of the stream gives the last block"),
    }
    assert!(matches!(reader.read_chunk(), ChunkStep::Done));
    assert!(matches!(reader.read_chunk(), ChunkStep::Done));
}

#[test]
fn chunk_reader_gives_a_full_buffer_without_newline_whole() {
    assert_eq!(
        split_blocks(b"abcdefgh\nij\n", 4),
        vec![b"abcd".to_vec(), b"efgh".to_vec(), b"\nij\n".to_vec()]
    );
}

#[test]
fn chunk_reader_cuts_at_a_newline_that_opens_the_buffer() {
    assert_eq!(
        split_blocks(b"\nabcdef", 4),
        vec![b"\n".to_vec(), b"abcd".to_vec(), b"ef".to_vec()]
    );
}

#[test]
fn chunk_reader_of_size_zero_gives_nothing() {
    assert_eq!(split_blocks(b"1\n2\n", 0), Vec::<Vec<u8>>::new());
    let mut reader = ChunkReader::new(0);
    assert!(matches!(reader.read_chunk(), ChunkStep::Done));
}

#[test]
fn last_block_may_lack_a_newline() {
    assert_eq!(
        split_blocks(b"1\n2\n3", 4),
        vec![b"1\n2\n".to_vec(), b"3".to_vec()]
    );
    assert_eq!(split_blocks(b"", 4), Vec::<Vec<u8>>::new());
    assert_eq!(split_blocks(b"1\n2\n", 4), vec![b"1\n2\n".to_vec()]);
}

#[test]
fn blocks_join_to_the_input_for_every_chunk_size() {
    let input = numbered_lines(40);
    for c in 1..=input.len() + 1 {
        let blocks = split_blocks(&input, c);
        let joined: Vec<u8> = blocks.iter().flatten().copied().collect();
        assert_eq!(joined, input, "chunk size {}", c);
        for (i, block) in blocks.iter().enumerate() {
            assert!(!block.is_empty() && block.len() <= c);
            if i + 1 < blocks.len() {
                assert!(block.ends_with(b"\n") || (block.len() == c && !block.contains(&b'\n')));
            }
        }
    }
}

#[test]
fn newline_around_the_chunk_boundary() {
    let whole: Vec<u64> = vec![123456, 7, 89];
    for input in [
        &b"123456,\n7,\n89\n"[..],
        &b"123456,\n7,\n89"[..],
        &b"[\n123456,\n7,\n89\n]\n"[..],
    ] {
        let single = decode_all(input, input.len() + 1, &ascending);
        assert_eq!(single.0, whole);
        for c in 8..=input.len() {
            let cut = decode_all(input, c, &ascending);
            assert_eq!(cut.0, whole, "chunk size {}", c);
            assert!(cut.1.is_empty());
        }
    }
    // the newline of the first line is the last byte of the buffer, the one
    // before it, and the first byte of the next
    assert_eq!(split_blocks(b"1234567\n89\n", 8)[0], b"1234567\n".to_vec());
    assert_eq!(split_blocks(b"123456\n789\n", 8)[0], b"123456\n".to_vec());
    assert_eq!(split_blocks(b"12345678\n9\n", 8)[0], b"12345678".to_vec());
}

#[test]
fn a_line_longer_than_the_buffer_is_cut() {
    let (values, errors, _) = decode_all(b"123456\n", 3, &ascending);
    assert_eq!(values, vec![123, 456]);
    assert!(errors.is_empty());
}

#[test]
fn order_is_kept_whatever_the_arrival() {
    let input = numbered_lines(500);
    let expected: Vec<u64> = (0..500).collect();
    let single = decode_all(&input, input.len() + 1, &ascending);
    assert_eq!(single.0, expected);
    for workers in [1usize, 2, 8] {
        let by_turns = move |n: usize| interleaved(n, workers);
        let out = decode_all(&input, 64, &by_turns);
        assert_eq!(out.0, expected, "workers {}", workers);
        assert!(out.1.is_empty());
    }
    let out = decode_all(&input, 64, &descending);
    assert_eq!(out.0, expected);
}

#[test]
fn a_malformed_line_gives_one_error_and_then_the_end() {
    let mut text = String::new();
    for i in 0..1000u64 {
        if i == 2 {
            text.push_str("oops,\n");
        } else {
            text.push_str(&format!("{},\n", i));
        }
    }
    let input = text.into_bytes();
    for workers in [1usize, 2, 8] {
        let by_turns = move |n: usize| interleaved(n, workers);
        let (values, errors, ends) = decode_all(&input, 256, &by_turns);
        assert!(values.is_empty());
        assert_eq!(errors.len(), 1);
        assert_eq!(ends, 3);
        match &errors[0] {
            DecodeError::Line { position, line, reason } => {
                assert_eq!(*position, 2);
                assert_eq!(line, &b"oops".to_vec());
                assert!(!reason.is_empty());
            }
            _ => panic!("a line error is expected"),
        }
    }
}

#[test]
fn an_error_in_a_later_block_waits_for_the_earlier_ones() {
    let mut collector: Collector<Vec<u64>> = Collector::new();
    let late = collector.accept(1, Err(DecodeError::Io("late".to_string())));
    assert!(late.is_empty());
    let out = collector.accept(0, Ok(vec![1, 2]));
    assert_eq!(out.len(), 2);
    assert!(matches!(&out[0], Ok(v) if v == &vec![1, 2]));
    assert!(matches!(&out[1], Err(DecodeError::Io(m)) if m == "late"));
    assert!(collector.accept(2, Ok(vec![3])).is_empty());
    assert!(collector.finish().is_ok());
}

#[test]
fn a_gap_at_the_end_is_an_error() {
    let mut collector: Collector<Vec<u64>> = Collector::new();
    assert_eq!(collector.accept(0, Ok(vec![1])).len(), 1);
    assert!(collector.accept(2, Ok(vec![3])).is_empty());
    match collector.finish() {
        Err(DecodeError::Gap { expected }) => assert_eq!(expected, 1),
        _ => panic!("a gap is expected"),
    }
    let empty: Collector<Vec<u64>> = Collector::new();
    assert!(empty.finish().is_ok());
}

#[test]
fn parser_reports_the_first_refused_line() {
    let mut parser = ChunkParser::new();
    let r: Result<Vec<u64>, DecodeError> = parser.parse_chunk(b"1,\n2,\nx,\ny,\n", &number);
    match r {
        Err(DecodeError::Line { position, line, .. }) => {
            assert_eq!(position, 2);
            assert_eq!(line, b"x".to_vec());
        }
        _ => panic!("a line error is expected"),
    }
    let ok: Result<Vec<u64>, DecodeError> = parser.parse_chunk(b"[\n5,\n6\n]\n", &number);
    assert!(matches!(ok, Ok(v) if v == vec![5, 6]));
}

#[test]
fn worker_passes_a_read_error_on_and_stops() {
    let mut parser = ChunkParser::new();
    let (r, go): (Result<Vec<u64>, DecodeError>, bool) =
        parse(&mut parser, Err(DecodeError::Io("disk".to_string())), &number);
    assert!(!go);
    assert!(matches!(r, Err(DecodeError::Io(m)) if m == "disk"));
    let (r, go): (Result<Vec<u64>, DecodeError>, bool) =
        parse(&mut parser, Ok(b"4\n".to_vec()), &number);
    assert!(go);
    assert!(matches!(r, Ok(v) if v == vec![4]));
    let (r, go): (Result<Vec<u64>, DecodeError>, bool) =
        parse(&mut parser, Ok(b"4x\n".to_vec()), &number);
    assert!(!go);
    assert!(r.is_err());
}

struct Tally(std::rc::Rc<std::cell::Cell<usize>>);

impl Progress for Tally {
    fn inc(&mut self, delta: usize) {
        self.0.set(self.0.get() + delta);
    }
}

#[test]
fn input_reader_numbers_blocks_and_reports_their_bytes() {
    let seen = std::rc::Rc::new(std::cell::Cell::new(0usize));
    let mut reader = InputReader::new(4, Tally(seen.clone()));
    let input = b"1\n2\n3\n45";
    let mut pos = 0;
    let mut sent = Vec::new();
    loop {
        match reader.read() {
            ReadAction::Fetch(n) => {
                let take = n.min(input.len() - pos);
                reader.feed(&input[pos..pos + take]);
                pos += take;
            }
            ReadAction::Send(idx, block) => {
                let total: usize = sent.iter().map(|(_, b): &(usize, Vec<u8>)| b.len()).sum();
                assert_eq!(seen.get(), total + block.len());
                sent.push((idx, block));
            }
            ReadAction::Stop => break,
        }
    }
    assert_eq!(
        sent,
        vec![(0, b"1\n2\n".to_vec()), (1, b"3\n".to_vec()), (2, b"45".to_vec())]
    );
    assert_eq!(seen.get(), input.len());
    let (idx, e) = reader.fail("broken".to_string());
    assert_eq!(idx, 3);
    assert!(matches!(e, DecodeError::Io(m) if m == "broken"));
    let mut quiet = InputReader::new(4, NopProgress);
    assert!(matches!(quiet.read(), ReadAction::Fetch(4)));
}

#[test]
fn worker_count_is_the_setting_or_twice_the_processors() {
    assert_eq!(worker_count(Some(3), 16), 3);
    assert_eq!(worker_count(Some(0), 16), 0);
    assert_eq!(worker_count(None, 4), 8);
    assert_eq!(worker_count(None, usize::MAX), usize::MAX);
    assert_eq!(worker_count(None, usize::MAX / 2), usize::MAX - 1);
    assert_eq!(get_worker_cnt(Some(5)), 5);
    let found = get_worker_cnt(None);
    assert!(found >= 2 && found % 2 == 0);
}

#[test]
fn decoder_hands_out_batches_in_order_and_ends_after_an_error() {
    let mut decoder: ParallelDecoder<u64> = ParallelDecoder::start();
    assert!(matches!(decoder.read_entry(), Pull::Wait));
    assert!(decoder.receive(Some(Ok(vec![1, 2]))).is_ok());
    assert!(decoder.receive(Some(Ok(vec![3]))).is_ok());
    assert!(matches!(decoder.read_entry(), Pull::Entry(1)));
    assert!(matches!(decoder.read_entry(), Pull::Entry(2)));
    assert!(matches!(decoder.read_entry(), Pull::Entry(3)));
    assert!(matches!(decoder.read_entry(), Pull::Wait));
    let r = decoder.receive(Some(Err(DecodeError::Gap { expected: 7 })));
    assert!(matches!(r, Err(DecodeError::Gap { expected: 7 })));
    assert!(matches!(decoder.read_entry(), Pull::End));
    assert!(decoder.receive(Some(Ok(vec![9]))).is_ok());
    assert!(matches!(decoder.read_entry(), Pull::End));
}

#[test]
fn sequential_decoder_counts_the_records() {
    let mut decoder = ArrayDecoder::new();
    let lines: [&[u8]; 5] = [b"[\n", b"11,\n", b"\n", b"x,\n", b"]\n"];
    let first: Result<Option<u64>, DecodeError> = decoder.read_entry(lines[0], &number);
    assert!(matches!(first, Ok(None)));
    let second: Result<Option<u64>, DecodeError> = decoder.read_entry(lines[1], &number);
    assert!(matches!(second, Ok(Some(11))));
    let third: Result<Option<u64>, DecodeError> = decoder.read_entry(lines[2], &number);
    assert!(matches!(third, Ok(None)));
    let fourth: Result<Option<u64>, DecodeError> = decoder.read_entry(lines[3], &number);
    match fourth {
        Err(DecodeError::Line { position, line, .. }) => {
            assert_eq!(position, 1);
            assert_eq!(line, b"x".to_vec());
        }
        _ => panic!("a line error is expected"),
    }
    let last: Result<Option<u64>, DecodeError> = decoder.read_entry(lines[4], &number);
    assert!(matches!(last, Ok(None)));
}

#[test]
fn gzip_is_told_by_the_name() {
    assert!(is_gzip("bodies7days.json.gz"));
    assert!(is_gzip(".gz"));
    assert!(!is_gzip("bodies.json"));
    assert!(!is_gzip("gz"));
    assert!(!is_gzip("a.gz.json"));
    assert!(!is_gzip(""));
}
