use bioyino_peer::codec::{protocol_error, reader_options, schema_error};
use bioyino_peer::error::{PeerError, ProtocolError, RecordError};
use bioyino_peer::server::{Connection, Inbound, Reaction};
use capnp::message::ReaderOptions;
use capnp::{data, text_list, Error, NotInSchema};

// one segment of two words: a pointer to a list of eight bytes, and the bytes
fn byte_list_frame() -> Vec<u8> {
    let mut frame = vec![0, 0, 0, 0, 2, 0, 0, 0];
    frame.extend_from_slice(&[1, 0, 0, 0, 0x42, 0, 0, 0]);
    frame.extend_from_slice(b"abcdefgh");
    frame
}

#[test]
fn frame_beyond_the_traversal_limit_is_too_large() {
    // three segments of 2^32 - 1 words each are declared, and nothing follows
    let mut header = vec![2u8, 0, 0, 0];
    header.extend_from_slice(&[0xff; 12]);
    let refused = capnp::serialize::read_message(&mut &header[..], reader_options());
    let error = match refused {
        Ok(_) => panic!("an oversized frame was read"),
        Err(error) => error,
    };
    let fault = protocol_error(&error);
    assert_eq!(fault, ProtocolError::TooLarge);

    let mut connection = Connection::new(1);
    assert_eq!(
        connection.handle(Inbound::<u64>::Failed(fault)),
        Reaction::Close { cause: Some(PeerError::Capnp(ProtocolError::TooLarge)) }
    );
    assert!(!connection.is_open());
}

#[test]
fn frame_within_the_limits_is_read() {
    let frame = byte_list_frame();
    let message = capnp::serialize::read_message(&mut &frame[..], reader_options()).unwrap();
    let bytes: data::Reader = message.get_root().unwrap();
    assert_eq!(bytes, &b"abcdefgh"[..]);
}

#[test]
fn frame_beyond_the_nesting_limit_is_too_deep() {
    let frame = byte_list_frame();
    let options = ReaderOptions { traversal_limit_in_words: 64, nesting_limit: 0 };
    let message = capnp::serialize::read_message(&mut &frame[..], options).unwrap();
    let error = match message.get_root::<text_list::Reader>() {
        Ok(_) => panic!("a list was read below the nesting limit"),
        Err(error) => error,
    };
    assert_eq!(protocol_error(&error), ProtocolError::TooDeep);
}

#[test]
fn reading_beyond_the_traversal_limit_is_too_large() {
    let frame = byte_list_frame();
    let options = ReaderOptions { traversal_limit_in_words: 2, nesting_limit: 16 };
    let message = capnp::serialize::read_message(&mut &frame[..], options).unwrap();
    let mut refused = None;
    for _ in 0..8 {
        if let Err(error) = message.get_root::<data::Reader>() {
            refused = Some(error);
            break;
        }
    }
    let error = refused.expect("the traversal limit was never reached");
    assert_eq!(protocol_error(&error), ProtocolError::TooLarge);
}

#[test]
fn truncated_and_garbled_frames_are_malformed() {
    let frame = byte_list_frame();
    let truncated = &frame[..12];
    let error = capnp::serialize::read_message(&mut &truncated[..], reader_options()).err().unwrap();
    assert_eq!(protocol_error(&error), ProtocolError::Malformed);

    // 600 segments are more than the codec takes
    let header = vec![0x57u8, 2, 0, 0, 0, 0, 0, 0];
    let error = capnp::serialize::read_message(&mut &header[..], reader_options()).err().unwrap();
    assert_eq!(protocol_error(&error), ProtocolError::Malformed);
}

#[test]
fn errors_are_told_apart_by_kind_first() {
    assert_eq!(protocol_error(&Error::disconnected("too large".to_string())), ProtocolError::Broken);
    assert_eq!(protocol_error(&Error::overloaded("nesting limit exceeded".to_string())), ProtocolError::Broken);
    assert_eq!(protocol_error(&Error::unimplemented("no such method".to_string())), ProtocolError::Malformed);
    assert_eq!(protocol_error(&Error::failed("".to_string())), ProtocolError::Malformed);
    assert_eq!(protocol_error(&Error::failed("too larg".to_string())), ProtocolError::Malformed);
    assert_eq!(
        protocol_error(&Error::failed("Message has 9 words, which is too large.".to_string())),
        ProtocolError::TooLarge
    );
    assert_eq!(protocol_error(&Error::failed("read limit exceeded".to_string())), ProtocolError::TooLarge);
    assert_eq!(protocol_error(&Error::failed("Message is too deeply nested.".to_string())), ProtocolError::TooDeep);
    assert_eq!(protocol_error(&Error::failed("nesting limit exceeded".to_string())), ProtocolError::TooDeep);
    // size is looked for before depth
    assert_eq!(
        protocol_error(&Error::failed("too deeply nested and too large".to_string())),
        ProtocolError::TooLarge
    );
}

#[test]
fn unknown_discriminants_keep_their_number() {
    assert_eq!(schema_error(NotInSchema(7)), RecordError::CapnpSchema(7));
    assert_eq!(schema_error(NotInSchema(u16::MAX)), RecordError::CapnpSchema(u16::MAX));
}
