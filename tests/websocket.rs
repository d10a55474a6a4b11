use ping_viewer_next::websocket::{WebsocketActorContent, WebsocketManager};

fn client(id: u32, re: Option<&str>, device: Option<u128>) -> WebsocketActorContent<u32> {
    WebsocketActorContent { actor: id, re: re.map(|s| s.to_string()), device_number: device }
}

#[test]
fn empty_registry_delivers_nothing() {
    let m: WebsocketManager<u32> = WebsocketManager::new();
    assert!(m.send("{}", None).is_empty());
}

#[test]
fn delivery_needs_device_filter_and_regex_match() {
    let mut m = WebsocketManager::new();
    m.subscribe(client(0, Some(".*"), None));
    m.subscribe(client(1, Some(".*"), Some(7)));
    m.subscribe(client(2, Some("Profile"), None));
    m.subscribe(client(3, None, None));
    m.subscribe(client(4, Some("(unclosed"), None));
    m.subscribe(client(5, Some("^\\{\"DeviceInfo"), Some(8)));
    assert_eq!(m.send("{\"DeviceMessage\":\"Profile\"}", Some(7)), vec![0, 1, 2]);
    assert_eq!(m.send("{\"DeviceInfo\":[]}", None), vec![0]);
    assert_eq!(m.send("{\"DeviceInfo\":[]}", Some(8)), vec![0, 5]);
}
