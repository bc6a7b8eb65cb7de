//! Register-level logic of the GT911 capacitive touch controller: how its
//! status byte and touch-point records are read, the command bytes written
//! to it, and the driver's runs as steps that each name the next bus
//! transfer. The transfers themselves are made by the caller.

use vstd::prelude::*;
use core::marker::PhantomData;

verus! {

#[derive(Debug, Clone, Copy)]
pub struct TouchPoint {
    pub x: u16,
    pub y: u16,
    pub fingers: u8,
}

#[derive(Debug, Clone, Copy)]
pub enum Gesture {
    NoGesture,
    SwipeUp,
    SwipeDown,
    SwipeLeft,
    SwipeRight,
    SingleTap,
    DoubleTap,
    LongPress,
    Unknown(u8),
}

// DETECTED SWIPE GESTURE WITH START/END COORDINATES
#[derive(Debug, Clone, Copy)]
pub struct SwipeEvent {
    pub direction: SwipeDirection,
    pub start_x: u16,
    pub start_y: u16,
    pub end_x: u16,
    pub end_y: u16,
}

#[derive(Debug, Clone, Copy, PartialEq, Eq, Structural)]
pub enum SwipeDirection {
    Left,
    Right,
    Up,
    Down,
}

pub const GT911_I2C_ADDR_BA: u8 = 0x5D;

pub const GT911_PRODUCT_ID_REG: u16 = 0x8140;

pub const GT911_TOUCHPOINT_STATUS_REG: u16 = 0x814E;

pub const GT911_TOUCHPOINT_1_REG: u16 = 0x814F;

pub const GT911_COMMAND_REG: u16 = 0x8040;

pub const MAX_NUM_TOUCHPOINTS: usize = 5;

pub const TOUCHPOINT_ENTRY_LEN: usize = 8;

pub const GET_TOUCH_BUF_SIZE: usize = 8;

pub const GET_MULTITOUCH_BUF_SIZE: usize = 40;

#[derive(Debug, Clone, PartialEq, Eq, Structural)]
pub struct Point {
    pub track_id: u8,
    pub x: u16,
    pub y: u16,
    pub area: u16,
}

#[derive(Debug, Clone)]
pub enum Error<E> {
    UnexpectedProductId,
    I2C(E),
    NotReady,
}

pub struct Gt911Blocking<I2C> {
    i2c_addr: u8,
    i2c: PhantomData<I2C>,
}

impl<I2C> Gt911Blocking<I2C> {
    /// The bus address the driver talks to.
    pub closed spec fn addr(&self) -> u8 {
        self.i2c_addr
    }

    pub fn new(i2c_addr: u8) -> (r: Self)
        ensures
            r.addr() == i2c_addr,
    {
        Self { i2c_addr, i2c: PhantomData }
    }

    /// A driver for the controller's default address `0x5D`.
    pub fn default() -> (r: Self)
        ensures
            r.addr() == GT911_I2C_ADDR_BA,
    {
        Self { i2c_addr: GT911_I2C_ADDR_BA, i2c: PhantomData }
    }

    pub fn i2c_addr(&self) -> (r: u8)
        ensures
            r == self.addr(),
    {
        self.i2c_addr
    }
}

/// The two bytes of a register address as sent on the bus (big-endian).
pub fn register_bytes(register: u16) -> (r: [u8; 2])
    ensures
        r@ == seq![(register / 256) as u8, (register % 256) as u8],
{
    [(register / 256) as u8, (register % 256) as u8]
}

/// The bytes of a write of `value` to `register`: the register address,
/// big-endian, then the value.
pub fn write_command(register: u16, value: u8) -> (r: [u8; 3])
    ensures
        r@ == seq![(register / 256) as u8, (register % 256) as u8, value],
{
    let reg = register_bytes(register);
    [reg[0], reg[1], value]
}

/// The controller identifies itself with the ASCII bytes `911\0`; anything
/// else is `UnexpectedProductId`.
pub fn check_product_id<E>(read: &[u8]) -> (r: Result<(), Error<E>>)
    requires
        read.len() == 4,
    ensures
        r is Ok <==> read@ == seq![0x39u8, 0x31u8, 0x31u8, 0x00u8],
        r matches Err(e) ==> e is UnexpectedProductId,
{
    if read[0] == 0x39 && read[1] == 0x31 && read[2] == 0x31 && read[3] == 0x00 {
        proof {
            assert(read@ =~= seq![0x39u8, 0x31u8, 0x31u8, 0x00u8]);
        }
        Ok(())
    } else {
        Err(Error::UnexpectedProductId)
    }
}

/// Reads the touch status register's value: bit 7 tells that a reading is
/// ready, the low nibble holds the number of touch points.
pub fn touch_point_count<E>(status: u8) -> (r: Result<usize, Error<E>>)
    ensures
        status >= 128 ==> r == Ok::<usize, Error<E>>((status % 16) as usize),
        status < 128 ==> (r matches Err(e) && e is NotReady),
{
    let ready = (status & 0x80) > 0;
    let num_touch_points = (status & 0x0F) as usize;
    assert((status & 0x80) > 0 <==> status >= 128) by (bit_vector);
    assert(status & 0x0F == status % 16) by (bit_vector);
    if ready {
        Ok(num_touch_points)
    } else {
        Err(Error::NotReady)
    }
}

/// The touch point that an 8-byte record describes: track id, then x, y
/// and area as little-endian 16-bit values.
pub open spec fn point_of(buf: Seq<u8>) -> Point {
    Point {
        track_id: buf[0],
        x: (buf[1] + buf[2] * 256) as u16,
        y: (buf[3] + buf[4] * 256) as u16,
        area: (buf[5] + buf[6] * 256) as u16,
    }
}

pub fn decode_point(buf: &[u8]) -> (r: Point)
    requires
        buf.len() >= TOUCHPOINT_ENTRY_LEN,
    ensures
        r == point_of(buf@),
{
    Point {
        track_id: buf[0],
        x: buf[1] as u16 + buf[2] as u16 * 256,
        y: buf[3] as u16 + buf[4] as u16 * 256,
        area: buf[5] as u16 + buf[6] as u16 * 256,
    }
}

/// Decodes the first `count` 8-byte touch-point records of `read`, as a
/// multi-touch reading does.
pub fn decode_points(read: &[u8], count: usize) -> (r: Vec<Point>)
    requires
        count <= MAX_NUM_TOUCHPOINTS,
        read.len() >= TOUCHPOINT_ENTRY_LEN * count,
    ensures
        r@.len() == count,
        forall|n: int|
            0 <= n < count ==> #[trigger] r@[n] == point_of(read@.subrange(8 * n, 8 * n + 8)),
{
    let mut points: Vec<Point> = Vec::new();
    let mut n: usize = 0;
    while n < count
        invariant
            n <= count,
            count <= MAX_NUM_TOUCHPOINTS,
            read.len() >= TOUCHPOINT_ENTRY_LEN * count,
            points@.len() == n,
            forall|m: int|
                0 <= m < n ==> #[trigger] points@[m] == point_of(read@.subrange(8 * m, 8 * m + 8)),
        decreases count - n,
    {
        let start = n * TOUCHPOINT_ENTRY_LEN;
        let record = slice_range(read, start, start + TOUCHPOINT_ENTRY_LEN);
        let point = decode_point(record);
        points.push(point);
        n = n + 1;
    }
    points
}

/// One transaction on the I2C bus: `bytes` written to the device at
/// `addr`, then `read_len` bytes read back (none for a plain write).
#[derive(Debug)]
pub struct BusOp {
    pub addr: u8,
    pub bytes: Vec<u8>,
    pub read_len: usize,
}

/// `op` writes `value` to `register` of the device at `addr`.
pub open spec fn is_register_write(op: BusOp, addr: u8, register: u16, value: u8) -> bool {
    &&& op.addr == addr
    &&& op.bytes@ == seq![(register / 256) as u8, (register % 256) as u8, value]
    &&& op.read_len == 0
}

/// `op` reads `len` bytes from `register` of the device at `addr`.
pub open spec fn is_register_read(op: BusOp, addr: u8, register: u16, len: usize) -> bool {
    &&& op.addr == addr
    &&& op.bytes@ == seq![(register / 256) as u8, (register % 256) as u8]
    &&& op.read_len == len
}

/// A touch reading: the first touch point only, or all of them.
#[derive(Clone, Copy, Debug, PartialEq, Eq, Structural)]
pub enum TouchQuery {
    Single,
    Multi,
}

/// How a driver run ends.
#[derive(Debug)]
pub enum TouchOutcome {
    /// The controller was set up.
    Ready,
    /// The first touch point, if any.
    Touch(Option<Point>),
    /// All touch points.
    Touches(Vec<Point>),
    /// The controller did not identify as a GT911.
    UnexpectedProductId,
    /// No reading was ready.
    NotReady,
}

/// Where a driver run stands: the run to start, or which transfer was
/// made last (its read bytes are the next step's input).
#[derive(Debug)]
pub enum DriverState {
    /// Set the controller up.
    Init,
    /// Take a touch reading.
    Query(TouchQuery),
    /// The command register was cleared.
    CommandSent,
    /// The product id was read.
    ProductIdRead,
    /// The touch status was read.
    StatusRead(TouchQuery),
    /// The first touch-point record was read.
    PointRead,
    /// This many touch-point records were read.
    PointsRead(usize),
    /// The touch status was cleared; the run ends with this outcome.
    StatusCleared(TouchOutcome),
    /// The run has ended.
    Done,
}

/// What the caller does next: make a transfer, or stop with an outcome.
#[derive(Debug)]
pub enum DriverAction {
    Transfer(BusOp),
    Finish(TouchOutcome),
}

impl<I2C> Gt911Blocking<I2C> {
    fn write_op(&self, register: u16, value: u8) -> (r: BusOp)
        ensures
            is_register_write(r, self.addr(), register, value),
    {
        let cmd = write_command(register, value);
        BusOp { addr: self.i2c_addr, bytes: vec![cmd[0], cmd[1], cmd[2]], read_len: 0 }
    }

    fn read_op(&self, register: u16, len: usize) -> (r: BusOp)
        ensures
            is_register_read(r, self.addr(), register, len),
    {
        let reg = register_bytes(register);
        BusOp { addr: self.i2c_addr, bytes: vec![reg[0], reg[1]], read_len: len }
    }

    /// One step of a driver run, given the bytes that the last transfer
    /// read. Setting up clears the command register, reads the 4-byte
    /// product id, and, when it is `911\0`, clears the touch status. A touch
    /// reading reads the status byte; when it is ready with `n` points, it
    /// reads the first record (single) or all `n` (multi), and then clears
    /// the status. Every transfer goes to the driver's own address.
    pub fn step(&self, state: DriverState, read: &[u8]) -> (r: (DriverState, DriverAction))
        requires
            !(state is Done),
            state is ProductIdRead ==> read@.len() == 4,
            state is StatusRead ==> read@.len() >= 1,
            state == DriverState::StatusRead(TouchQuery::Multi) && read@[0] >= 128 ==> read@[0] % 16 <= MAX_NUM_TOUCHPOINTS,
            state is PointRead ==> read@.len() >= TOUCHPOINT_ENTRY_LEN,
            state matches DriverState::PointsRead(n) ==> n <= MAX_NUM_TOUCHPOINTS && read@.len() >= TOUCHPOINT_ENTRY_LEN * n,
        ensures
            r.1 matches DriverAction::Transfer(op) ==> op.addr == self.addr(),
            match state {
                DriverState::Init => r.0 is CommandSent && (r.1 matches DriverAction::Transfer(op)
                    && is_register_write(op, self.addr(), GT911_COMMAND_REG, 0)),
                DriverState::CommandSent => r.0 is ProductIdRead && (r.1 matches DriverAction::Transfer(op)
                    && is_register_read(op, self.addr(), GT911_PRODUCT_ID_REG, 4)),
                DriverState::ProductIdRead => if read@ == seq![0x39u8, 0x31u8, 0x31u8, 0x00u8] {
                    (r.0 matches DriverState::StatusCleared(o) && o is Ready) && (r.1 matches DriverAction::Transfer(op)
                        && is_register_write(op, self.addr(), GT911_TOUCHPOINT_STATUS_REG, 0))
                } else {
                    r.0 is Done && (r.1 matches DriverAction::Finish(o) && o is UnexpectedProductId)
                },
                DriverState::Query(q) => r.0 == DriverState::StatusRead(q) && (r.1 matches DriverAction::Transfer(op)
                    && is_register_read(op, self.addr(), GT911_TOUCHPOINT_STATUS_REG, 1)),
                DriverState::StatusRead(q) => {
                    let status = read@[0];
                    let n = (status % 16) as usize;
                    if status < 128 {
                        r.0 is Done && (r.1 matches DriverAction::Finish(o) && o is NotReady)
                    } else if n == 0 {
                        (r.1 matches DriverAction::Transfer(op)
                            && is_register_write(op, self.addr(), GT911_TOUCHPOINT_STATUS_REG, 0))
                        && match q {
                            TouchQuery::Single => r.0 matches DriverState::StatusCleared(o) && o matches TouchOutcome::Touch(p) && p is None,
                            TouchQuery::Multi => r.0 matches DriverState::StatusCleared(o) && o matches TouchOutcome::Touches(v) && v@.len() == 0,
                        }
                    } else {
                        match q {
                            TouchQuery::Single => r.0 is PointRead && (r.1 matches DriverAction::Transfer(op)
                                && is_register_read(op, self.addr(), GT911_TOUCHPOINT_1_REG, TOUCHPOINT_ENTRY_LEN)),
                            TouchQuery::Multi => r.0 == DriverState::PointsRead(n) && (r.1 matches DriverAction::Transfer(op)
                                && is_register_read(op, self.addr(), GT911_TOUCHPOINT_1_REG, (TOUCHPOINT_ENTRY_LEN * n) as usize)),
                        }
                    }
                },
                DriverState::PointRead => (r.0 matches DriverState::StatusCleared(o) && o == TouchOutcome::Touch(Some(point_of(read@))))
                    && (r.1 matches DriverAction::Transfer(op)
                    && is_register_write(op, self.addr(), GT911_TOUCHPOINT_STATUS_REG, 0)),
                DriverState::PointsRead(n) => (r.0 matches DriverState::StatusCleared(o) && o matches TouchOutcome::Touches(v)
                    && v@.len() == n && forall|k: int| 0 <= k < n ==> #[trigger] v@[k] == point_of(read@.subrange(8 * k, 8 * k + 8)))
                    && (r.1 matches DriverAction::Transfer(op)
                    && is_register_write(op, self.addr(), GT911_TOUCHPOINT_STATUS_REG, 0)),
                DriverState::StatusCleared(o) => r.0 is Done && r.1 == DriverAction::Finish(o),
                DriverState::Done => false,
            },
    {
        match state {
            DriverState::Init => (DriverState::CommandSent, DriverAction::Transfer(self.write_op(GT911_COMMAND_REG, 0))),
            DriverState::CommandSent => (DriverState::ProductIdRead, DriverAction::Transfer(self.read_op(GT911_PRODUCT_ID_REG, 4))),
            DriverState::ProductIdRead => {
                match check_product_id::<()>(read) {
                    Ok(()) => (
                        DriverState::StatusCleared(TouchOutcome::Ready),
                        DriverAction::Transfer(self.write_op(GT911_TOUCHPOINT_STATUS_REG, 0)),
                    ),
                    Err(_) => (DriverState::Done, DriverAction::Finish(TouchOutcome::UnexpectedProductId)),
                }
            },
            DriverState::Query(q) => (DriverState::StatusRead(q), DriverAction::Transfer(self.read_op(GT911_TOUCHPOINT_STATUS_REG, 1))),
            DriverState::StatusRead(q) => {
                match touch_point_count::<()>(read[0]) {
                    Err(_) => (DriverState::Done, DriverAction::Finish(TouchOutcome::NotReady)),
                    Ok(n) => {
                        if n == 0 {
                            let outcome = match q {
                                TouchQuery::Single => TouchOutcome::Touch(None),
                                TouchQuery::Multi => TouchOutcome::Touches(Vec::new()),
                            };
                            (DriverState::StatusCleared(outcome), DriverAction::Transfer(self.write_op(GT911_TOUCHPOINT_STATUS_REG, 0)))
                        } else {
                            match q {
                                TouchQuery::Single => (
                                    DriverState::PointRead,
                                    DriverAction::Transfer(self.read_op(GT911_TOUCHPOINT_1_REG, TOUCHPOINT_ENTRY_LEN)),
                                ),
                                TouchQuery::Multi => (
                                    DriverState::PointsRead(n),
                                    DriverAction::Transfer(self.read_op(GT911_TOUCHPOINT_1_REG, TOUCHPOINT_ENTRY_LEN * n)),
                                ),
                            }
                        }
                    },
                }
            },
            DriverState::PointRead => {
                let point = decode_point(read);
                (DriverState::StatusCleared(TouchOutcome::Touch(Some(point))), DriverAction::Transfer(self.write_op(GT911_TOUCHPOINT_STATUS_REG, 0)))
            },
            DriverState::PointsRead(n) => {
                let points = decode_points(read, n);
                (DriverState::StatusCleared(TouchOutcome::Touches(points)), DriverAction::Transfer(self.write_op(GT911_TOUCHPOINT_STATUS_REG, 0)))
            },
            DriverState::StatusCleared(o) => (DriverState::Done, DriverAction::Finish(o)),
            DriverState::Done => (DriverState::Done, DriverAction::Finish(TouchOutcome::NotReady)),
        }
    }
}

/// `&s[start..end]`.
fn slice_range(s: &[u8], start: usize, end: usize) -> (r: &[u8])
    requires
        start <= end <= s.len(),
    ensures
        r@ == s@.subrange(start as int, end as int),
{
    vstd::slice::slice_subrange(s, start, end)
}

} // verus!
