use ping_viewer_next::discovery::{sources_from_responses, DiscoveryResponse};
use ping_viewer_next::source::{Ipv4Address, SourceSelection, SourceUdpStruct};

#[test]
fn test_discovery_response_parsing() {
    let response = "SONAR PING360\r\n\
                    Blue Robotics\r\n\
                    MAC Address:- 54-10-EC-79-7D-D1\r\n\
                    IP Address:- 192.168.000.197\r\n";

    let expected = DiscoveryResponse {
        device_name: "SONAR PING360".to_string(),
        manufacturer: "Blue Robotics".to_string(),
        mac_address: "54-10-EC-79-7D-D1".to_string(),
        ip_address: Ipv4Address::new(192, 168, 0, 197),
    };

    let parsed = DiscoveryResponse::from_response(response);
    assert_eq!(parsed, Some(expected));
}

#[test]
fn test_invalid_response_parsing() {
    let invalid_response = "INVALID RESPONSE FORMAT";

    let parsed = DiscoveryResponse::from_response(invalid_response);
    assert!(parsed.is_none());
}

#[test]
fn test_multiple_discovery_responses() {
    let response_1 = "SONAR PING360\r\n\
                      Blue Robotics\r\n\
                      MAC Address:- 54-10-EC-79-7D-D1\r\n\
                      IP Address:- 192.168.000.197\r\n";

    let response_2 = "SONAR PING360\r\n\
                      Blue Robotics\r\n\
                      MAC Address:- 54-10-EC-79-7D-D2\r\n\
                      IP Address:- 192.168.000.198\r\n";

    let expected_1 = DiscoveryResponse {
        device_name: "SONAR PING360".to_string(),
        manufacturer: "Blue Robotics".to_string(),
        mac_address: "54-10-EC-79-7D-D1".to_string(),
        ip_address: Ipv4Address::new(192, 168, 0, 197),
    };

    let expected_2 = DiscoveryResponse {
        device_name: "SONAR PING360".to_string(),
        manufacturer: "Blue Robotics".to_string(),
        mac_address: "54-10-EC-79-7D-D2".to_string(),
        ip_address: Ipv4Address::new(192, 168, 0, 198),
    };

    let responses = vec![response_1, response_2];

    let mut parsed_responses = Vec::new();
    for response in responses {
        if let Some(parsed) = DiscoveryResponse::from_response(response) {
            parsed_responses.push(parsed);
        }
    }

    assert_eq!(parsed_responses, vec![expected_1, expected_2]);
}

#[test]
fn discovery_reply_leads_to_udp_source_on_protocol_port() {
    let response = "SONAR PING360\r\nBlue Robotics\r\nMAC Address:- 54-10-EC-79-7D-D1\r\nIP Address:- 192.168.000.197\r\n";
    let parsed = DiscoveryResponse::from_response(response).unwrap();
    let sources = sources_from_responses(&vec![parsed]).unwrap();
    assert_eq!(sources.len(), 1);
    assert_eq!(
        sources[0],
        SourceSelection::UdpStream(SourceUdpStruct {
            ip: Ipv4Address::new(192, 168, 0, 197),
            port: 12345
        })
    );
}

#[test]
fn no_replies_give_no_sources() {
    assert!(sources_from_responses(&Vec::new()).is_none());
}

#[test]
fn names_are_trimmed_and_padding_zeros_dropped() {
    let response = "  Sonar \r\n\tBR \r\nMAC Address:- ab-CD\r\nIP Address:-   010.001.000.255\r\n";
    let parsed = DiscoveryResponse::from_response(response).unwrap();
    assert_eq!(parsed.device_name, "Sonar");
    assert_eq!(parsed.manufacturer, "BR");
    assert_eq!(parsed.mac_address, "ab-CD");
    assert_eq!(parsed.ip_address, Ipv4Address::new(10, 1, 0, 255));
}

#[test]
fn out_of_range_or_malformed_octets_are_rejected() {
    let too_big = "A\r\nB\r\nMAC Address:- 00\r\nIP Address:- 192.168.0.256\r\n";
    assert!(DiscoveryResponse::from_response(too_big).is_none());
    let leading_zero = "A\r\nB\r\nMAC Address:- 00\r\nIP Address:- 192.168.00010.1\r\n";
    assert!(DiscoveryResponse::from_response(leading_zero).is_none());
    let missing_crlf = "A\r\nB\r\nMAC Address:- 00\r\nIP Address:- 192.168.0.1";
    assert!(DiscoveryResponse::from_response(missing_crlf).is_none());
    let trailing = "A\r\nB\r\nMAC Address:- 00\r\nIP Address:- 192.168.0.1\r\nX";
    assert!(DiscoveryResponse::from_response(trailing).is_none());
    let empty_name = "\r\nB\r\nMAC Address:- 00\r\nIP Address:- 192.168.0.1\r\n";
    assert!(DiscoveryResponse::from_response(empty_name).is_none());
    let bad_mac = "A\r\nB\r\nMAC Address:- 0g\r\nIP Address:- 192.168.0.1\r\n";
    assert!(DiscoveryResponse::from_response(bad_mac).is_none());
}

#[test]
fn two_padding_zeros_leave_one_digit() {
    let response = "A\r\nB\r\nMAC Address:- 00\r\nIP Address:- 000.00.0.100\r\n";
    let parsed = DiscoveryResponse::from_response(response).unwrap();
    assert_eq!(parsed.ip_address, Ipv4Address::new(0, 0, 0, 100));
}
