use services_control::layout::{layout, shown_text, Card};
use services_control::services::Service;

#[test]
fn card_of_a_bare_service() {
    let service = Service {
        id: 1,
        name: "web".to_string(),
        start_command: None,
        stop_command: None,
        restart_command: None,
    };
    assert_eq!(
        layout(&service),
        Some(Card {
            start_command: "N/A".to_string(),
            stop_command: "N/A".to_string(),
            restart_command: "N/A".to_string(),
            width: 30,
            id_width: 22,
            name_width: 20,
            start_width: 11,
            stop_width: 12,
            restart_width: 9,
        })
    );
}

#[test]
fn card_grows_with_longest_command() {
    let service = Service {
        id: 1,
        name: "web".to_string(),
        start_command: Some("docker start web".to_string()),
        stop_command: Some("docker stop web".to_string()),
        restart_command: None,
    };
    let card = layout(&service).unwrap();
    assert_eq!(card.width, 16 + 15 + 10);
    assert_eq!(card.start_width, 16 + 6);
    assert_eq!(card.stop_width, 41 - 18);
    assert_eq!(card.restart_width, 41 - 21);
    assert_eq!(card.start_command, "docker start web");
    assert_eq!(card.stop_command, "docker stop web");
    assert_eq!(card.restart_command, "N/A");
}

#[test]
fn card_grows_with_long_name() {
    let service = Service {
        id: 12,
        name: "n".repeat(40),
        start_command: None,
        stop_command: None,
        restart_command: None,
    };
    let card = layout(&service).unwrap();
    assert_eq!(card.width, 50);
    assert_eq!(card.name_width, 40);
    assert_eq!(card.id_width, 42);
}

#[test]
fn card_measures_bytes() {
    let service = Service {
        id: 1,
        name: "é".repeat(30),
        start_command: None,
        stop_command: None,
        restart_command: None,
    };
    assert_eq!(layout(&service).unwrap().width, 70);
}

#[test]
fn restart_label_is_the_widest() {
    let service = Service {
        id: 1,
        name: String::new(),
        start_command: Some("abc".to_string()),
        stop_command: Some("abcd".to_string()),
        restart_command: Some("ab".to_string()),
    };
    let card = layout(&service).unwrap();
    assert_eq!(card.width, 2 + 17 + 10);
    assert_eq!(card.restart_width, 8);
}

#[test]
fn shown_text_defaults_to_placeholder() {
    assert_eq!(shown_text(&None), "N/A");
    assert_eq!(shown_text(&Some("run".to_string())), "run");
    assert_eq!(shown_text(&Some(String::new())), "");
}
