use explore::channel::Polled;
use explore::control::{MouseButton, RecvEvent};
use explore::event::{Key, WindowEvent};
use explore::math::Point2;
use explore::ortho_helper::OrthographicHelper;
use explore::render::{Encoder, GraphicsData};
use explore::{DevEventHub, Game, SCALE};

#[test]
fn event_hub_routes_window_events_to_control() {
    let (mut dev, mut hub) = DevEventHub::new();
    let control_channel = hub.control_channel.take().unwrap();

    dev.process_glutin(WindowEvent::KeyboardInput(true, Key::D));
    dev.process_glutin(WindowEvent::KeyboardInput(false, Key::Left));
    dev.process_glutin(WindowEvent::KeyboardInput(true, Key::Up));
    dev.process_glutin(WindowEvent::KeyboardInput(false, Key::S));
    dev.process_glutin(WindowEvent::MouseMoved(12, 34));
    dev.process_glutin(WindowEvent::MouseInput(true, MouseButton::Left));
    dev.process_glutin(WindowEvent::Resized(800, 600));
    dev.process_glutin(WindowEvent::KeyboardInput(true, Key::Other));

    let rx = &control_channel.1;
    assert!(matches!(rx.try_recv(), Ok(RecvEvent::Right(true))));
    assert!(matches!(rx.try_recv(), Ok(RecvEvent::Left(false))));
    assert!(matches!(rx.try_recv(), Ok(RecvEvent::Up(true))));
    assert!(matches!(rx.try_recv(), Ok(RecvEvent::Down(false))));
    assert!(matches!(rx.try_recv(), Ok(RecvEvent::MouseMoved(12, 34))));
    assert!(matches!(rx.try_recv(), Ok(RecvEvent::MouseInput(true, MouseButton::Left))));
    assert!(matches!(rx.try_recv(), Ok(RecvEvent::Resize(800, 600))));
    // The unknown key was dropped.
    assert!(rx.try_recv().is_err());
}

#[test]
fn event_hub_polls_distinguish_empty_from_closed() {
    let (mut dev, hub) = DevEventHub::new();
    assert!(matches!(dev.try_recv_from_game(), Polled::Empty));
    drop(hub);
    assert!(matches!(dev.try_recv_from_game(), Polled::Closed));
}

fn test_ortho() -> OrthographicHelper {
    OrthographicHelper::new(640 * SCALE / 480, 90 * SCALE, 0, 10 * SCALE)
}

#[test]
fn game_boots_runs_frames_and_exits() {
    let (mut dev, hub) = DevEventHub::new();
    // The render system expects its targets as the very first message.
    dev.send_to_render(explore::render::RecvEvent::GraphicsData(GraphicsData { id: 0 }));

    let mut game = Game::new(hub, Point2::new(0, 0), Point2::new(640, 480), test_ortho())
        .expect("startup channels were all present");
    assert_eq!(game.world.num_entities(), explore::game::WORLD_SIZE);
    assert_eq!(game.wires_render, explore::RenderId { id: 1 });

    // Hand the render system a command buffer, then run one frame.
    dev.send_to_render(explore::render::RecvEvent::Encoder(Encoder { id: 42 }));
    assert!(game.frame());

    // The buffer came back after submission.
    match dev.recv_from_render() {
        Some(explore::render::SendEvent::Encoder(e)) => assert_eq!(e.id, 42),
        other => panic!("expected the encoder back, got {:?}", other.is_some()),
    }
    // Every one of the 441 tiles was submitted, sorted by layer.
    let list = game.last_draw_list.as_ref().expect("a draw list was submitted");
    assert_eq!(list.len(), explore::game::WORLD_SIZE - 1);
    assert!(list.windows(2).all(|w| w[0].layer <= w[1].layer));

    // An exit request ends the loop without another dispatch.
    dev.send_to_game(explore::game::RecvEvent::Exit);
    assert!(!game.frame());
}

#[test]
fn game_applies_queued_mapper_insertions() {
    let (mut dev, hub) = DevEventHub::new();
    dev.send_to_render(explore::render::RecvEvent::GraphicsData(GraphicsData { id: 0 }));

    let mut game = Game::new(hub, Point2::new(0, 0), Point2::new(640, 480), test_ortho())
        .expect("startup channels were all present");

    let coord = explore::math::Point3I::new(4, 5, 6);
    game.mapper_channel
        .send(explore::mapper::RecvEvent::NewMapping(coord, 3))
        .unwrap();

    dev.send_to_render(explore::render::RecvEvent::Encoder(Encoder { id: 0 }));
    assert!(game.frame());
    assert_eq!(game.world.map.lookup(&coord), Some(3));
}
