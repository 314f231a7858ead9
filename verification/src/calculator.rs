//! A small service on top of the library: a calculator whose clients send
//! one operation and get one answer.

use crate::error::InitError;
use crate::model::{
    default_magic, ClientServerModel, ClientServerOptions, Handlers, IpcModel, ModelView,
};
use crate::namespace::{path_from_str, path_of};
use vstd::prelude::*;

verus! {

/// The calculator's model: its channel is named `calculator`.
#[derive(Debug, Clone, Copy)]
pub struct MyModel;

impl IpcModel for MyModel {
    type ClientMsg = ClientMessage;

    type ServerMsg = ServerMessage;

    /// The calculator's channel is named `calculator` and has the default
    /// options.
    open spec fn spec_model() -> Result<ModelView, InitError> {
        Ok(
            ModelView {
                socket_name: path_of("calculator"@),
                magic_bytes: default_magic(),
                disable_single_server_check: false,
                handler: Handlers::Default,
            },
        )
    }

    fn model() -> (model: Result<ClientServerModel<ClientMessage, ServerMessage>, InitError>) {
        Ok(ClientServerOptions::new(path_from_str("calculator")).create())
    }
}

/// Operations to send to the server
#[derive(Debug, Clone, Copy, PartialEq, Eq, Structural)]
pub enum ClientMessage {
    /// The sum of the two.
    Add(i32, i32),
    /// The first less the second.
    Sub(i32, i32),
    /// The product of the two.
    Mul(i32, i32),
    /// The first divided by the second, rounded towards zero.
    Div(i32, i32),
    /// Take no more operations.
    Stop,
}

/// Possible responces to give to client
#[derive(Debug, Clone, Copy, PartialEq, Eq, Structural)]
pub enum ServerMessage {
    /// The number that answers the operation.
    Answer(i32),
    /// The server takes no more operations.
    Stopping,
    /// The operation divides by zero.
    DivByZero,
}

/// The quotient of `a` by `b`, rounded towards zero.
pub open spec fn quotient(a: int, b: int) -> int
    recommends
        b != 0,
{
    if a >= 0 && b > 0 {
        a / b
    } else if a < 0 && b > 0 {
        -((-a) / b)
    } else if a >= 0 && b < 0 {
        -(a / (-b))
    } else {
        (-a) / (-b)
    }
}

/// The number that answers an operation, where it has one.
pub open spec fn value(msg: ClientMessage) -> Option<int> {
    match msg {
        ClientMessage::Add(a, b) => Some(a + b),
        ClientMessage::Sub(a, b) => Some(a - b),
        ClientMessage::Mul(a, b) => Some(a * b),
        ClientMessage::Div(a, b) => if b == 0 {
            None
        } else {
            Some(quotient(a as int, b as int))
        },
        ClientMessage::Stop => None,
    }
}

/// The operation has an answer that the server can send: its number, if it
/// has one, is an `i32`.
pub open spec fn answerable(msg: ClientMessage) -> bool {
    value(msg) matches Some(v) ==> i32::MIN <= v <= i32::MAX
}

/// The answer to an operation: its number; `DivByZero` for a division by
/// zero; `Stopping` for `Stop`.
pub open spec fn respond_spec(msg: ClientMessage) -> ServerMessage {
    match msg {
        ClientMessage::Stop => ServerMessage::Stopping,
        ClientMessage::Div(_, b) if b == 0 => ServerMessage::DivByZero,
        _ => ServerMessage::Answer(value(msg).unwrap() as i32),
    }
}

/// The quotient of two `i32` is an `i32` but for the least of them divided
/// by `-1`.
pub proof fn lemma_quotient_fits(a: i32, b: i32)
    requires
        b != 0,
    ensures
        (i32::MIN <= quotient(a as int, b as int) <= i32::MAX) <==> !(a == i32::MIN && b == -1),
{
    let x: int = if a >= 0 {
        a as int
    } else {
        -(a as int)
    };
    let y: int = if b > 0 {
        b as int
    } else {
        -(b as int)
    };
    assert(0 <= x / y <= x) by (nonlinear_arith)
        requires
            x >= 0,
            y > 0,
    ;
    if y == 1 {
        assert(x / 1 == x);
    } else {
        assert(x > 0 ==> x / y < x) by (nonlinear_arith)
            requires
                x >= 0,
                y >= 2,
        ;
    }
}

/// The quotient of `a` by `b`, rounded towards zero.
fn divide(a: i32, b: i32) -> (q: i32)
    requires
        b != 0,
        i32::MIN <= quotient(a as int, b as int) <= i32::MAX,
    ensures
        q == quotient(a as int, b as int),
{
    let wide_a: i64 = a as i64;
    let wide_b: i64 = b as i64;
    let q: i64 = if wide_a >= 0 && wide_b > 0 {
        wide_a / wide_b
    } else if wide_a < 0 && wide_b > 0 {
        -((-wide_a) / wide_b)
    } else if wide_a >= 0 && wide_b < 0 {
        -(wide_a / (-wide_b))
    } else {
        (-wide_a) / (-wide_b)
    };
    q as i32
}

/// Craft a response based on the message
pub fn respond(msg: ClientMessage) -> (resp: ServerMessage)
    requires
        answerable(msg),
    ensures
        resp == respond_spec(msg),
{
    match msg {
        ClientMessage::Add(a, b) => ServerMessage::Answer(a + b),
        ClientMessage::Sub(a, b) => ServerMessage::Answer(a - b),
        ClientMessage::Mul(a, b) => ServerMessage::Answer(a * b),
        ClientMessage::Div(a, b) => {
            if b == 0 {
                ServerMessage::DivByZero
            } else {
                ServerMessage::Answer(divide(a, b))
            }
        },
        ClientMessage::Stop => ServerMessage::Stopping,
    }
}

/// Whether `respond` can answer the operation: `None` where its number is no
/// `i32`, else the answer.
pub fn try_respond(msg: ClientMessage) -> (resp: Option<ServerMessage>)
    ensures
        resp == (if answerable(msg) {
            Some(respond_spec(msg))
        } else {
            None
        }),
{
    let fits = match msg {
        ClientMessage::Add(a, b) => a.checked_add(b).is_some(),
        ClientMessage::Sub(a, b) => a.checked_sub(b).is_some(),
        ClientMessage::Mul(a, b) => a.checked_mul(b).is_some(),
        ClientMessage::Div(a, b) => {
            proof {
                if b != 0 {
                    lemma_quotient_fits(a, b);
                }
            }
            !(a == i32::MIN && b == -1)
        },
        ClientMessage::Stop => true,
    };
    if fits {
        Some(respond(msg))
    } else {
        None
    }
}

} // verus!
