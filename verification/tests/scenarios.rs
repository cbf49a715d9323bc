use moodlight::color::{ColorCommand, RenderCall, Variant};
use moodlight::document::LightDocument;
use moodlight::intensity::Intensity;
use moodlight::lifecycle::{Action, Lifecycle};
use moodlight::observer::Observer;

fn arguments(texts: &[&str]) -> Vec<String> {
    let mut tokens = Vec::new();
    for text in texts {
        tokens.push(text.to_string());
    }
    tokens
}

fn snapshot(red: f32, green: f32, blue: f32, is_off: bool) -> LightDocument {
    LightDocument::complete(
        Intensity::from_bits(red.to_bits()),
        Intensity::from_bits(green.to_bits()),
        Intensity::from_bits(blue.to_bits()),
        is_off,
    )
}

fn subscribed_observer(tokens: &Vec<String>, mini: Option<bool>) -> Observer {
    let mut lifecycle = Lifecycle::launch(tokens, mini);
    lifecycle.report(true);
    match lifecycle.report(true) {
        Action::Subscribe(observer) => observer,
        other => panic!("the observer is not subscribed: {:?}", other),
    }
}

#[test]
fn startup_without_arguments_renders_the_default_colour() {
    let lifecycle = Lifecycle::launch(&arguments(&[]), None);
    assert_eq!(
        lifecycle.pending_action(),
        Action::Render(RenderCall {
            variant: Variant::Standard,
            color: ColorCommand { red: 39, green: 103, blue: 245 }
        })
    );
}

#[test]
fn startup_with_three_arguments_renders_them_on_the_standard_driver() {
    let lifecycle = Lifecycle::launch(&arguments(&["10", "20", "30"]), None);
    assert_eq!(
        lifecycle.pending_action(),
        Action::Render(RenderCall {
            variant: Variant::Standard,
            color: ColorCommand { red: 10, green: 20, blue: 30 }
        })
    );
}

#[test]
fn startup_with_the_flag_cleared_uses_the_standard_driver() {
    let lifecycle = Lifecycle::launch(&arguments(&["10", "20", "30"]), Some(false));
    assert_eq!(
        lifecycle.pending_action(),
        Action::Render(RenderCall {
            variant: Variant::Standard,
            color: ColorCommand { red: 10, green: 20, blue: 30 }
        })
    );
    assert_eq!(subscribed_observer(&arguments(&[]), Some(false)).variant, Variant::Standard);
}

#[test]
fn startup_with_the_flag_set_routes_every_call_to_the_mini_driver() {
    let tokens = arguments(&["10", "20", "30"]);
    let lifecycle = Lifecycle::launch(&tokens, Some(true));
    assert_eq!(
        lifecycle.pending_action(),
        Action::Render(RenderCall {
            variant: Variant::Mini,
            color: ColorCommand { red: 10, green: 20, blue: 30 }
        })
    );
    let mut observer = subscribed_observer(&tokens, Some(true));
    let mut calls: Vec<RenderCall> = Vec::new();
    let deliveries = [
        snapshot(255.0, 0.0, 0.0, false),
        snapshot(255.0, 0.0, 0.0, true),
        snapshot(1.0, 2.0, 3.0, false),
        snapshot(4.0, 5.0, 6.0, false),
    ];
    for (n, delivery) in deliveries.iter().enumerate() {
        if let Ok(Some(made)) = observer.on_document_changed(Some(*delivery)) {
            calls.push(made);
        }
        if n != 2 {
            if let Some(made) = observer.on_render_completed() {
                calls.push(made);
            }
        }
    }
    while let Some(made) = observer.on_render_completed() {
        calls.push(made);
    }
    assert_eq!(calls.len(), 4);
    for made in &calls {
        assert_eq!(made.variant, Variant::Mini);
    }
    assert_eq!(calls[0].color, ColorCommand { red: 255, green: 0, blue: 0 });
    assert_eq!(calls[1].color, ColorCommand { red: 0, green: 0, blue: 0 });
    assert_eq!(calls[2].color, ColorCommand { red: 1, green: 2, blue: 3 });
    assert_eq!(calls[3].color, ColorCommand { red: 4, green: 5, blue: 6 });
}

#[test]
fn a_red_document_renders_red() {
    let mut observer = subscribed_observer(&arguments(&[]), None);
    assert_eq!(
        observer.on_document_changed(Some(snapshot(255.0, 0.0, 0.0, false))),
        Ok(Some(RenderCall {
            variant: Variant::Standard,
            color: ColorCommand { red: 255, green: 0, blue: 0 }
        }))
    );
}

#[test]
fn a_red_document_that_is_off_renders_dark() {
    let mut observer = subscribed_observer(&arguments(&[]), None);
    assert_eq!(
        observer.on_document_changed(Some(snapshot(255.0, 0.0, 0.0, true))),
        Ok(Some(RenderCall {
            variant: Variant::Standard,
            color: ColorCommand { red: 0, green: 0, blue: 0 }
        }))
    );
}
