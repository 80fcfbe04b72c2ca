use vstd::prelude::*;
use std::sync::mpsc::{Receiver, Sender};
use crate::channel::{channel_pair, recv_value, send_value, try_recv_value, Polled};
use crate::control::{self, MouseButton};
use crate::game;
use crate::mapper;
use crate::render;

verus! {

/// A key the window loop reports, already mapped off the window
/// system's own key codes.
#[derive(Debug, Clone, Copy, PartialEq, Eq, Structural)]
pub enum Key {
    D,
    A,
    W,
    S,
    Right,
    Left,
    Up,
    Down,
    Other,
}

/// A window-system event as plain values; the window loop translates
/// its own event type into this one before handing it over.
#[derive(Debug, Clone, Copy, PartialEq, Eq, Structural)]
pub enum WindowEvent {
    MouseMoved(u32, u32),
    MouseInput(bool, MouseButton),
    KeyboardInput(bool, Key),
    Resized(u32, u32),
}

/// Which control-system input a window event becomes: the D and
/// right-arrow keys drive the positive horizontal direction, A and
/// the left arrow the negative one, W and the up arrow the positive
/// vertical direction, S and the down arrow the negative one; mouse
/// and resize events pass through, and an unknown key becomes
/// nothing.
pub open spec fn window_event_mapping(event: WindowEvent) -> Option<control::RecvEvent> {
    match event {
        WindowEvent::MouseMoved(x, y) => Some(control::RecvEvent::MouseMoved(x, y)),
        WindowEvent::MouseInput(pressed, button) => Some(
            control::RecvEvent::MouseInput(pressed, button),
        ),
        WindowEvent::KeyboardInput(pressed, key) => match key {
            Key::D => Some(control::RecvEvent::Right(pressed)),
            Key::Right => Some(control::RecvEvent::Right(pressed)),
            Key::A => Some(control::RecvEvent::Left(pressed)),
            Key::Left => Some(control::RecvEvent::Left(pressed)),
            Key::W => Some(control::RecvEvent::Up(pressed)),
            Key::Up => Some(control::RecvEvent::Up(pressed)),
            Key::S => Some(control::RecvEvent::Down(pressed)),
            Key::Down => Some(control::RecvEvent::Down(pressed)),
            Key::Other => None,
        },
        WindowEvent::Resized(width, height) => Some(control::RecvEvent::Resize(width, height)),
    }
}

/// Translates one window event into the control-system input it
/// stands for, if any.
pub fn map_window_event(event: WindowEvent) -> (r: Option<control::RecvEvent>)
    ensures
        r == window_event_mapping(event),
{
    match event {
        WindowEvent::MouseMoved(x, y) => Some(control::RecvEvent::MouseMoved(x, y)),
        WindowEvent::MouseInput(pressed, button) => Some(
            control::RecvEvent::MouseInput(pressed, button),
        ),
        WindowEvent::KeyboardInput(pressed, key) => match key {
            Key::D => Some(control::RecvEvent::Right(pressed)),
            Key::Right => Some(control::RecvEvent::Right(pressed)),
            Key::A => Some(control::RecvEvent::Left(pressed)),
            Key::Left => Some(control::RecvEvent::Left(pressed)),
            Key::W => Some(control::RecvEvent::Up(pressed)),
            Key::Up => Some(control::RecvEvent::Up(pressed)),
            Key::S => Some(control::RecvEvent::Down(pressed)),
            Key::Down => Some(control::RecvEvent::Down(pressed)),
            Key::Other => None,
        },
        WindowEvent::Resized(width, height) => Some(control::RecvEvent::Resize(width, height)),
    }
}

/// The game-side bundle of channel endpoints, handed out once to the
/// systems that own them.
pub struct GameEventHub {
    pub control_channel: Option<control::Channel>,
    pub render_channel: Option<render::Channel>,
    pub game_channel: Option<game::Channel>,
    pub mapper_channel_mapper: Option<mapper::MapperEnd>,
    pub mapper_channel_game: Option<mapper::GameEnd>,
}

impl GameEventHub {
    pub fn new(
        control_channel: control::Channel,
        render_channel: render::Channel,
        game_channel: game::Channel,
    ) -> (r: GameEventHub)
        ensures
            r.control_channel == Some(control_channel),
            r.render_channel == Some(render_channel),
            r.game_channel == Some(game_channel),
            r.mapper_channel_mapper is None,
            r.mapper_channel_game is None,
    {
        GameEventHub {
            control_channel: Some(control_channel),
            render_channel: Some(render_channel),
            game_channel: Some(game_channel),
            mapper_channel_mapper: None,
            mapper_channel_game: None,
        }
    }
}

/// The window-loop side of all the channels: it feeds input to the
/// control system, trades command buffers with the render system,
/// and watches the game loop.
pub struct DevEventHub {
    send_to_control: Sender<control::RecvEvent>,
    recv_from_control: Receiver<control::SendEvent>,
    send_to_render: Sender<render::RecvEvent>,
    recv_from_render: Receiver<render::SendEvent>,
    send_to_game: Sender<game::RecvEvent>,
    recv_from_game: Receiver<game::SendEvent>,
}

impl DevEventHub {
    /// Creates every channel of the system and splits the endpoints
    /// into the window-loop side and the game side.
    pub fn new() -> (r: (DevEventHub, GameEventHub))
        ensures
            r.1.control_channel is Some,
            r.1.render_channel is Some,
            r.1.game_channel is Some,
            r.1.mapper_channel_mapper is Some,
            r.1.mapper_channel_game is Some,
    {
        let (send_to_control, recv_to_control) = channel_pair::<control::RecvEvent>();
        let (send_from_control, recv_from_control) = channel_pair::<control::SendEvent>();
        let (send_to_render, recv_to_render) = channel_pair::<render::RecvEvent>();
        let (send_from_render, recv_from_render) = channel_pair::<render::SendEvent>();
        let (send_to_game, recv_to_game) = channel_pair::<game::RecvEvent>();
        let (send_from_game, recv_from_game) = channel_pair::<game::SendEvent>();
        let (send_to_mapper, recv_to_mapper) = channel_pair::<mapper::RecvEvent>();

        let dev = DevEventHub::new_internal(
            send_to_control,
            recv_from_control,
            send_to_render,
            recv_from_render,
            send_to_game,
            recv_from_game,
        );
        let mut hub = GameEventHub::new(
            (send_from_control, recv_to_control),
            (send_from_render, recv_to_render),
            (send_from_game, recv_to_game),
        );
        hub.mapper_channel_mapper = Some(recv_to_mapper);
        hub.mapper_channel_game = Some(send_to_mapper);
        (dev, hub)
    }

    fn new_internal(
        send_to_control: Sender<control::RecvEvent>,
        recv_from_control: Receiver<control::SendEvent>,
        send_to_render: Sender<render::RecvEvent>,
        recv_from_render: Receiver<render::SendEvent>,
        send_to_game: Sender<game::RecvEvent>,
        recv_from_game: Receiver<game::SendEvent>,
    ) -> DevEventHub {
        DevEventHub {
            send_to_control,
            recv_from_control,
            send_to_render,
            recv_from_render,
            send_to_game,
            recv_from_game,
        }
    }

    /// Queues an input event for the control system, fire-and-forget.
    pub fn send_to_control(&mut self, event: control::RecvEvent) {
        send_value(&self.send_to_control, event);
    }

    /// Blocks for the control system's next report; `None` once it
    /// is gone, which the caller treats as fatal.
    pub fn recv_from_control(&mut self) -> Option<control::SendEvent> {
        recv_value(&self.recv_from_control)
    }

    /// Polls the control system's reports without blocking.
    pub fn try_recv_from_control(&mut self) -> Polled<control::SendEvent> {
        try_recv_value(&self.recv_from_control)
    }

    /// Queues a message for the render system, fire-and-forget.
    pub fn send_to_render(&mut self, event: render::RecvEvent) {
        send_value(&self.send_to_render, event);
    }

    /// Blocks for the render system's next message; `None` once it
    /// is gone, which the caller treats as fatal.
    pub fn recv_from_render(&mut self) -> Option<render::SendEvent> {
        recv_value(&self.recv_from_render)
    }

    /// Queues a message for the game loop, fire-and-forget.
    pub fn send_to_game(&mut self, event: game::RecvEvent) {
        send_value(&self.send_to_game, event);
    }

    /// Blocks for the game loop's next report; `None` once it is
    /// gone, which the caller treats as fatal.
    pub fn recv_from_game(&mut self) -> Option<game::SendEvent> {
        recv_value(&self.recv_from_game)
    }

    /// Polls the game loop's reports without blocking.
    pub fn try_recv_from_game(&mut self) -> Polled<game::SendEvent> {
        try_recv_value(&self.recv_from_game)
    }

    /// Translates one window event through `map_window_event` and
    /// queues the control-system input it stands for, if any.
    pub fn process_glutin(&mut self, event: WindowEvent) {
        match map_window_event(event) {
            Some(input) => self.send_to_control(input),
            None => {},
        }
    }
}

} // verus!
