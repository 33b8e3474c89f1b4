use af_packet::ifreq::{IfReq, IF_NAMESIZE, IF_REQ_UNION_SIZE};
use af_packet::socket::{
    check_index_name, eth_p_all_network_order, Socket, SocketError, AF_PACKET, IFF_PROMISC,
};

#[test]
fn test_ifreq_default() {
    let ifreq = IfReq::default();
    assert_eq!(ifreq.ifr_name.len(), IF_NAMESIZE);
    assert_eq!(ifreq.data.len(), IF_REQ_UNION_SIZE);
}

#[test]
fn test_ifreq_with_if_name() {
    let result = IfReq::with_if_name("eth0");
    assert!(result.is_ok());
    let ifreq = result.unwrap();
    assert_eq!(ifreq.ifr_name[0], b'e' as i8);
    assert_eq!(ifreq.ifr_name[1], b't' as i8);
    assert_eq!(ifreq.ifr_name[2], b'h' as i8);
    assert_eq!(ifreq.ifr_name[3], b'0' as i8);
}

#[test]
fn test_ifreq_with_long_if_name() {
    let long_name = "a".repeat(IF_NAMESIZE);
    let result = IfReq::with_if_name(&long_name);
    assert!(result.is_err());
}

#[test]
fn test_ifreq_from_short() {
    let value: i16 = 0x1234;
    let ifreq = IfReq::from_short(value);
    // Check that the bytes are stored correctly
    assert!(ifreq.data[0] != 0 || ifreq.data[1] != 0);
}

#[test]
fn name_is_zero_padded_to_capacity() {
    let ifreq = IfReq::with_if_name("eth0").unwrap();
    let expected = b"eth0";
    for k in 0..IF_NAMESIZE {
        if k < expected.len() {
            assert_eq!(ifreq.ifr_name[k], expected[k] as i8);
        } else {
            assert_eq!(ifreq.ifr_name[k], 0);
        }
    }
    for k in 0..IF_REQ_UNION_SIZE {
        assert_eq!(ifreq.data[k], 0);
    }
}

#[test]
fn name_at_capacity_is_invalid_argument() {
    let long_name = "x".repeat(IF_NAMESIZE);
    assert_eq!(
        IfReq::with_if_name(&long_name),
        Err(SocketError::InvalidArgument)
    );
    let longer_name = "y".repeat(IF_NAMESIZE + 5);
    assert_eq!(
        IfReq::with_if_name(&longer_name),
        Err(SocketError::InvalidArgument)
    );
}

#[test]
fn short_round_trip() {
    for value in [0i16, 1, -1, 0x1234, -0x1234, i16::MIN, i16::MAX, 256, 257] {
        let ifreq = IfReq::from_short(value);
        assert_eq!(ifreq.as_short(), value);
        assert_eq!(ifreq.ifr_flags(), value);
    }
}

#[test]
fn from_short_stores_host_order_bytes() {
    let ifreq = IfReq::from_short(0x1234);
    assert_eq!(ifreq.data[0], 0x34);
    assert_eq!(ifreq.data[1], 0x12);
    for k in 2..IF_REQ_UNION_SIZE {
        assert_eq!(ifreq.data[k], 0);
    }
    for k in 0..IF_NAMESIZE {
        assert_eq!(ifreq.ifr_name[k], 0);
    }
}

#[test]
fn scenario_eth0_and_flags_word() {
    let ifreq = IfReq::with_if_name("eth0").unwrap();
    assert_eq!(ifreq.ifr_name[0], b'e' as i8);
    assert_eq!(ifreq.ifr_name[1], b't' as i8);
    assert_eq!(ifreq.ifr_name[2], b'h' as i8);
    assert_eq!(ifreq.ifr_name[3], b'0' as i8);
    for k in 4..IF_NAMESIZE {
        assert_eq!(ifreq.ifr_name[k], 0);
    }
    assert_eq!(IfReq::from_short(0x1234).as_short(), 0x1234);
}

#[test]
fn index_name_with_null_byte_is_invalid_argument() {
    assert_eq!(
        check_index_name("eth\0bad"),
        Err(SocketError::InvalidArgument)
    );
}

#[test]
fn index_name_without_null_byte_is_accepted() {
    assert_eq!(check_index_name("eth0"), Ok(()));
    assert_eq!(check_index_name("invalid_interface_name_12345"), Ok(()));
    assert_eq!(check_index_name(""), Ok(()));
}

#[test]
fn protocol_is_eth_p_all_in_network_order() {
    assert_eq!(eth_p_all_network_order(), 768);
}

fn test_socket(name: &str) -> Socket {
    Socket {
        fd: -1,
        if_name: String::from(name),
        if_index: 0,
        sock_type: AF_PACKET,
    }
}

#[test]
fn get_flags_request_carries_name_and_zero_payload() {
    let socket = test_socket("eth0");
    let req = socket.get_flags_request().unwrap();
    assert_eq!(req.ifr_name[0], b'e' as i8);
    assert_eq!(req.ifr_name[3], b'0' as i8);
    assert_eq!(req.ifr_flags(), 0);
    for k in 0..IF_REQ_UNION_SIZE {
        assert_eq!(req.data[k], 0);
    }
}

#[test]
fn get_flags_request_rejects_long_name() {
    let socket = test_socket("an_interface_name_beyond_capacity");
    assert_eq!(
        socket.get_flags_request(),
        Err(SocketError::InvalidArgument)
    );
}

#[test]
fn set_flag_request_ors_flag_into_current_word() {
    let socket = test_socket("eth0");
    let req = socket.set_flag_request(0x0001, IFF_PROMISC).unwrap();
    assert_eq!(req.ifr_flags(), 0x0101);
    assert_eq!(req.ifr_name[0], b'e' as i8);
    assert_eq!(req.ifr_name[3], b'0' as i8);
}

#[test]
fn set_flag_twice_yields_same_flag_set() {
    let socket = test_socket("eth0");
    let first = socket.set_flag_request(0x1002, IFF_PROMISC).unwrap();
    let once = first.ifr_flags();
    // A second application reads back what the first wrote.
    let second = socket.set_flag_request(once, IFF_PROMISC).unwrap();
    assert_eq!(second.ifr_flags(), once);
    assert_eq!(once, 0x1102);
}

#[test]
fn set_flag_request_rejects_long_name() {
    let socket = test_socket("an_interface_name_beyond_capacity");
    assert_eq!(
        socket.set_flag_request(0, IFF_PROMISC),
        Err(SocketError::InvalidArgument)
    );
}

#[test]
fn os_error_keeps_its_code() {
    let err = SocketError::Os(13);
    assert_eq!(err, SocketError::Os(13));
    assert_ne!(err, SocketError::Os(1));
    assert_ne!(err, SocketError::InvalidArgument);
}
