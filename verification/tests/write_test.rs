use libsnatch::download::store_chunk;
use libsnatch::write::OutputFileWriter;

#[test]
fn empty_chunks_should_only_create_a_file() {
    let writer = OutputFileWriter::new(0);
    assert!(writer.as_bytes().is_empty());
    assert_eq!(writer.as_bytes().len(), 0);
}

#[test]
fn simple_hello_world_msg_should_pass() {
    let msg = b"Hello World!";
    let mut writer = OutputFileWriter::new(msg.len());
    let mut first = writer.get_chunk_writer(0);
    let mut second = writer.get_chunk_writer(6);
    first.write(&mut writer, 0, b"Hello ");
    second.write(&mut writer, 0, b"World!");
    assert_eq!(writer.as_bytes(), &msg[..]);

    // The same two writes in the opposite order produce the same contents.
    let mut other = OutputFileWriter::new(msg.len());
    let mut first = other.get_chunk_writer(0);
    let mut second = other.get_chunk_writer(6);
    second.write(&mut other, 0, b"World!");
    first.write(&mut other, 0, b"Hello ");
    assert_eq!(other.as_bytes(), &msg[..]);
}

#[test]
fn complex_msg_should_pass() {
    let fst_msg = b"This mess".to_vec();
    let snd_msg = b"age is ".to_vec();
    let trd_msg = b"complex\n".to_vec();
    let total_len = fst_msg.len() + snd_msg.len() + trd_msg.len();

    let mut writer = OutputFileWriter::new(total_len);
    let mut chunk = writer.get_chunk_writer(0);
    let segments = vec![fst_msg, snd_msg, trd_msg];
    let total = store_chunk(&mut writer, &mut chunk, &segments);

    assert_eq!(total, total_len as u64);
    assert_eq!(writer.as_bytes(), &b"This message is complex\n"[..]);
}

#[test]
fn unwritten_regions_read_as_zero() {
    let mut writer = OutputFileWriter::new(8);
    writer.write(3, b"ab");
    assert_eq!(writer.as_bytes(), &[0, 0, 0, b'a', b'b', 0, 0, 0][..]);
}

#[test]
fn chunk_view_writes_relative_to_its_base_offset() {
    let mut writer = OutputFileWriter::new(10);
    let mut chunk = writer.get_chunk_writer(4);
    chunk.write(&mut writer, 2, b"xy");
    assert_eq!(writer.as_bytes(), &[0, 0, 0, 0, 0, 0, b'x', b'y', 0, 0][..]);
}

#[test]
fn storing_no_segments_transfers_nothing() {
    let mut writer = OutputFileWriter::new(4);
    let mut chunk = writer.get_chunk_writer(0);
    let segments: Vec<Vec<u8>> = vec![];
    let total = store_chunk(&mut writer, &mut chunk, &segments);
    assert_eq!(total, 0);
    assert_eq!(writer.as_bytes(), &[0, 0, 0, 0][..]);
}
