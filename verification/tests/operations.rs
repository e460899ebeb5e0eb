use bytes::Bytes;
use galileo_platform::diagnostic::Diagnostic;
use galileo_platform::error::{GalileoError, TransportFailure, TransportKind};
use galileo_platform::image::DecodedImage;
use galileo_platform::native::{NativePlatformService, USER_AGENT};
use galileo_platform::operation::{Action, Event, Loaded};
use galileo_platform::platform::PlatformService;

fn image() -> DecodedImage {
    DecodedImage { width: 2, height: 1, bytes: vec![1, 2, 3, 4, 5, 6, 7, 8] }
}

fn timed_out() -> TransportFailure {
    TransportFailure { kind: TransportKind::Body, timeout: true, connect: false }
}

fn every_event() -> Vec<Event> {
    vec![
        Event::Response(Ok(200)),
        Event::Response(Ok(404)),
        Event::Response(Err(timed_out())),
        Event::Body(Ok(Bytes::from_static(b"body"))),
        Event::Body(Err(timed_out())),
        Event::FailureText(Some("text".to_string())),
        Event::FailureText(None),
        Event::Decoded(Ok(image())),
        Event::Decoded(Err(GalileoError::ImageDecode)),
    ]
}

#[test]
fn new_service_identifies_as_galileo() {
    let service = NativePlatformService::new();
    assert_eq!(service.user_agent(), "galileo/0.1");
    assert_eq!(USER_AGENT, "galileo/0.1");
    assert_eq!(service.clone().user_agent(), "galileo/0.1");
}

#[test]
fn every_fetch_starts_with_a_get_of_its_url() {
    let service = NativePlatformService::new();
    for url in ["https://host/ok.png", "", "not a url", "https://host/é?q=1#frag"] {
        let expected =
            Action::Get { url: url.to_string(), user_agent: "galileo/0.1".to_string() };
        let (operation, first) = service.load_bytes_from_url(url);
        assert_eq!(first, expected);
        assert!(!operation.is_finished());
        let (operation, first) = service.load_image_url(url);
        assert_eq!(first, expected);
        assert!(!operation.is_finished());
    }
}

#[test]
fn fetch_of_bytes_returns_the_body_as_it_came() {
    let service = NativePlatformService::new();
    for status in [200u16, 201, 204, 299] {
        for body in [Bytes::new(), Bytes::from_static(b"\x00\xff\x89PNG"), Bytes::from(vec![7u8; 4096])]
        {
            let (mut operation, _) = service.load_bytes_from_url("https://host/data");
            assert_eq!(operation.step(Event::Response(Ok(status))), Some(Action::ReadBody));
            assert!(!operation.is_finished());
            assert_eq!(
                operation.step(Event::Body(Ok(body.clone()))),
                Some(Action::Finish { outcome: Ok(Loaded::Bytes(body)), diagnostic: None })
            );
            assert!(operation.is_finished());
        }
    }
}

#[test]
fn image_load_ends_as_decoding_the_fetched_body_ends() {
    let service = NativePlatformService::new();
    let body = Bytes::from_static(b"some image file");
    for result in [Ok(image()), Err(GalileoError::ImageDecode), Err(GalileoError::IO)] {
        let (mut fetched, _) = service.load_image_url("https://host/ok.png");
        assert_eq!(fetched.step(Event::Response(Ok(200))), Some(Action::ReadBody));
        let handed_on = fetched.step(Event::Body(Ok(body.clone())));
        let (mut direct, first) = service.decode_image(body.clone());
        assert_eq!(handed_on, Some(Action::Decode(body.clone())));
        assert_eq!(handed_on, Some(first));
        assert_eq!(fetched, direct);
        let end_fetched = fetched.step(Event::Decoded(result.clone()));
        let end_direct = direct.step(Event::Decoded(result.clone()));
        assert_eq!(end_fetched, end_direct);
        assert_eq!(
            end_direct,
            Some(Action::Finish { outcome: result.map(Loaded::Image), diagnostic: None })
        );
    }
}

#[test]
fn decode_forwards_the_image_unchanged() {
    let service = NativePlatformService::new();
    let (mut operation, _) = service.decode_image(Bytes::from_static(b"bytes"));
    let decoded = DecodedImage { width: 640, height: 480, bytes: vec![9; 17] };
    assert_eq!(
        operation.step(Event::Decoded(Ok(decoded.clone()))),
        Some(Action::Finish { outcome: Ok(Loaded::Image(decoded)), diagnostic: None })
    );
    assert!(operation.is_finished());
}

#[test]
fn decode_forwards_each_error_unchanged() {
    let service = NativePlatformService::new();
    let failure = TransportFailure { kind: TransportKind::Decode, timeout: false, connect: false };
    for error in [GalileoError::ImageDecode, GalileoError::IO, GalileoError::Transport(failure)] {
        let (mut operation, _) = service.decode_image(Bytes::new());
        assert_eq!(
            operation.step(Event::Decoded(Err(error))),
            Some(Action::Finish { outcome: Err(error), diagnostic: None })
        );
    }
}

#[test]
fn failure_status_is_io_for_bytes_and_for_images_and_nothing_is_decoded() {
    let service = NativePlatformService::new();
    for status in [0u16, 100, 199, 300, 301, 400, 404, 500, 599, 999, 65535] {
        for text in [Some("not found".to_string()), Some(String::new()), None] {
            for image_wanted in [false, true] {
                let url = "https://host/missing.png";
                let (mut operation, _) = if image_wanted {
                    service.load_image_url(url)
                } else {
                    service.load_bytes_from_url(url)
                };
                assert_eq!(
                    operation.step(Event::Response(Ok(status))),
                    Some(Action::ReadFailureText)
                );
                assert_eq!(operation.step(Event::Body(Ok(Bytes::from_static(b"x")))), None);
                assert_eq!(operation.step(Event::Decoded(Ok(image()))), None);
                assert_eq!(
                    operation.step(Event::FailureText(text.clone())),
                    Some(Action::Finish {
                        outcome: Err(GalileoError::IO),
                        diagnostic: Some(Diagnostic {
                            url: url.to_string(),
                            status,
                            body: text.clone(),
                        }),
                    })
                );
                assert!(operation.is_finished());
            }
        }
    }
}

#[test]
fn failure_while_reading_the_body_is_a_transport_error() {
    let service = NativePlatformService::new();
    for image_wanted in [false, true] {
        let (mut operation, _) = if image_wanted {
            service.load_image_url("https://host/ok.png")
        } else {
            service.load_bytes_from_url("https://host/ok.png")
        };
        assert_eq!(operation.step(Event::Response(Ok(200))), Some(Action::ReadBody));
        assert_eq!(
            operation.step(Event::Body(Err(timed_out()))),
            Some(Action::Finish {
                outcome: Err(GalileoError::Transport(timed_out())),
                diagnostic: None
            })
        );
        assert!(operation.is_finished());
    }
}

#[test]
fn every_kind_of_transport_failure_is_handed_on_as_reported() {
    let service = NativePlatformService::new();
    for kind in [
        TransportKind::Builder,
        TransportKind::Request,
        TransportKind::Redirect,
        TransportKind::Status,
        TransportKind::Body,
        TransportKind::Decode,
        TransportKind::Upgrade,
    ] {
        for (timeout, connect) in [(false, false), (false, true), (true, false), (true, true)] {
            let failure = TransportFailure { kind, timeout, connect };
            let (mut operation, _) = service.load_bytes_from_url("https://host/ok.png");
            let last = operation.step(Event::Response(Err(failure)));
            assert_eq!(
                last,
                Some(Action::Finish {
                    outcome: Err(GalileoError::Transport(failure)),
                    diagnostic: None
                })
            );
            assert_eq!(GalileoError::from_transport(failure), GalileoError::Transport(failure));
            assert_ne!(GalileoError::from_transport(failure), GalileoError::IO);
        }
    }
}

#[test]
fn event_out_of_turn_is_refused_and_changes_nothing() {
    let service = NativePlatformService::new();
    let (mut operation, _) = service.load_image_url("https://host/ok.png");
    for event in every_event() {
        if !matches!(event, Event::Response(_)) {
            assert_eq!(operation.step(event), None);
            assert!(!operation.is_finished());
        }
    }
    assert_eq!(operation.step(Event::Response(Ok(200))), Some(Action::ReadBody));
    for event in every_event() {
        if !matches!(event, Event::Body(_)) {
            assert_eq!(operation.step(event), None);
        }
    }
    let body = Bytes::from_static(b"body");
    assert_eq!(operation.step(Event::Body(Ok(body.clone()))), Some(Action::Decode(body)));
    for event in every_event() {
        if !matches!(event, Event::Decoded(_)) {
            assert_eq!(operation.step(event), None);
        }
    }
    assert_eq!(
        operation.step(Event::Decoded(Ok(image()))),
        Some(Action::Finish { outcome: Ok(Loaded::Image(image())), diagnostic: None })
    );
}

#[test]
fn finished_operation_refuses_every_event() {
    let service = NativePlatformService::new();
    let (mut operation, _) = service.decode_image(Bytes::from_static(b"bytes"));
    assert!(operation.step(Event::Decoded(Err(GalileoError::ImageDecode))).is_some());
    assert!(operation.is_finished());
    for event in every_event() {
        assert_eq!(operation.step(event), None);
        assert!(operation.is_finished());
    }
}

#[test]
fn operation_never_asks_for_a_second_get() {
    let service = NativePlatformService::new();
    for script in [
        vec![Event::Response(Ok(503)), Event::FailureText(None)],
        vec![Event::Response(Err(timed_out()))],
        vec![Event::Response(Ok(200)), Event::Body(Err(timed_out()))],
        vec![
            Event::Response(Ok(200)),
            Event::Body(Ok(Bytes::new())),
            Event::Decoded(Err(GalileoError::ImageDecode)),
        ],
    ] {
        let (mut operation, _) = service.load_image_url("https://host/flaky.png");
        let mut asked = Vec::new();
        for event in script {
            asked.push(operation.step(event).unwrap());
        }
        assert!(asked.len() <= 3);
        assert!(operation.is_finished());
        assert!(matches!(asked.last(), Some(Action::Finish { .. })));
        assert!(!asked.iter().any(|action| matches!(action, Action::Get { .. })));
        assert_eq!(asked.iter().filter(|a| matches!(a, Action::Finish { .. })).count(), 1);
    }
}

#[test]
fn many_fetches_under_way_at_once_end_in_their_own_bodies_in_any_order() {
    let service = NativePlatformService::new();
    let count = 5usize;
    for stride in [1usize, 2, 3, 4] {
        let mut operations = Vec::new();
        for index in 0..count {
            let (operation, first) =
                service.load_bytes_from_url(&format!("https://host/{}.bin", index));
            assert_eq!(
                first,
                Action::Get {
                    url: format!("https://host/{}.bin", index),
                    user_agent: "galileo/0.1".to_string()
                }
            );
            operations.push(operation);
        }
        let mut ends: Vec<Option<Action>> = (0..count).map(|_| None).collect();
        for turn in 0..count {
            let index = (turn * stride) % count;
            assert_eq!(
                operations[index].step(Event::Response(Ok(200))),
                Some(Action::ReadBody)
            );
        }
        for turn in (0..count).rev() {
            let index = (turn * stride) % count;
            ends[index] =
                operations[index].step(Event::Body(Ok(Bytes::from(vec![index as u8; index + 1]))));
        }
        for index in 0..count {
            assert_eq!(
                ends[index],
                Some(Action::Finish {
                    outcome: Ok(Loaded::Bytes(Bytes::from(vec![index as u8; index + 1]))),
                    diagnostic: None
                })
            );
        }
    }
}

#[test]
fn clone_of_an_image_is_equal_to_it() {
    assert_eq!(image().clone(), image());
}
