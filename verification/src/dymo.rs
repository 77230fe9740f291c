//! Drivers for DYMO scales.
//!
//! A driver owns the handle of one scale and knows the model behind it. The
//! caller makes the blocking read on the handle and gives the driver what
//! came of it: the count of bytes or the transport's error, and the buffer.
//! The driver decodes the bytes that were read, and no byte behind them, and
//! answers with the measurement on the path asked for.

use vstd::prelude::*;
use vstd::slice::slice_subrange;
use hidapi::HidError;
use crate::decoder::decode;
use crate::decoder::sync_offset;
use crate::decoder::parse_buffer;
use crate::error::HidScaleError;
use crate::transport::describe;
use crate::reading::{DymoUnit, ForceReading, Quantity};

verus! {

/// The USB vendor ID of DYMO.
pub const VENDOR_ID: u16 = 0x0922;

/// The USB product ID of the M10.
pub const M_10_ID: u16 = 0x8009;

/// Bytes that one read asks the scale for.
pub const READ_LEN: usize = 128;

/// Fewest bytes that a read must bring for its buffer to be decoded.
pub const MIN_READ: usize = 6;

/// The hardware models that have a driver.
#[derive(Clone, Copy, Debug, PartialEq, Eq, Structural)]
pub enum Model {
    DymoS100,
}

/// The driver of one scale: its model, fixed when the driver is made, and
/// the handle `D` through which the caller reads from it.
pub struct Driver<D> {
    model: Model,
    device: D,
}

/// The model that answers to a product ID, if one does.
pub open spec fn model_of(product_id: u16) -> Option<Model> {
    if product_id == M_10_ID {
        Some(Model::DymoS100)
    } else {
        None
    }
}

/// The bytes that a read of `count` bytes left in `buf`: the first `count`
/// of them. A transport cannot fill more than the buffer holds, so a count
/// beyond its length stands for the whole buffer.
pub open spec fn bytes_read(count: usize, buf: Seq<u8>) -> Seq<u8> {
    if count <= buf.len() {
        buf.subrange(0, count as int)
    } else {
        buf
    }
}

/// What a read amounts to, given how the transport answered and the buffer
/// it filled: the transport's description of its failure is passed on as
/// `CantReadDueTo`, a count under six is `NotEnoughData`, and otherwise the
/// bytes that were read are decoded.
pub open spec fn interpret(outcome: Result<usize, String>, buf: Seq<u8>) -> Result<
    DymoUnit,
    HidScaleError,
> {
    match outcome {
        Ok(count) => if count >= MIN_READ {
            decode(bytes_read(count, buf))
        } else {
            Err(HidScaleError::NotEnoughData)
        },
        Err(description) => Err(HidScaleError::CantReadDueTo(description)),
    }
}

/// The kilogram path of a read.
pub open spec fn interpret_kilograms(outcome: Result<usize, String>, buf: Seq<u8>) -> Result<
    Quantity,
    HidScaleError,
> {
    match interpret(outcome, buf) {
        Ok(reading) => Ok(reading.kilograms()),
        Err(e) => Err(e),
    }
}

/// The pound path of a read.
pub open spec fn interpret_pounds(outcome: Result<usize, String>, buf: Seq<u8>) -> Result<
    Quantity,
    HidScaleError,
> {
    match interpret(outcome, buf) {
        Ok(reading) => Ok(reading.pounds()),
        Err(e) => Err(e),
    }
}

/// The force path of a read.
pub open spec fn interpret_force(outcome: Result<usize, String>, buf: Seq<u8>) -> Result<
    ForceReading,
    HidScaleError,
> {
    match interpret(outcome, buf) {
        Ok(reading) => Ok(reading.force()),
        Err(e) => Err(e),
    }
}

/// Makes the driver for the scale behind `device`, or hands back nothing
/// where no driver knows the product ID. That is no error: the caller
/// passes over the device.
pub fn make_driver<D>(product_id: u16, device: D) -> (driver: Option<Driver<D>>)
    ensures
        match model_of(product_id) {
            Some(model) => driver matches Some(d) && d.model_spec() == model && d.device_spec()
                == device,
            None => driver is None,
        },
        driver is Some <==> product_id == M_10_ID,
{
    if product_id == M_10_ID {
        Some(Driver { model: Model::DymoS100, device })
    } else {
        None
    }
}

impl<D> Driver<D> {
    /// The model that the driver was made for.
    pub closed spec fn model_spec(&self) -> Model {
        self.model
    }

    /// The handle that the driver owns.
    pub closed spec fn device_spec(&self) -> D {
        self.device
    }

    /// The model that the driver was made for.
    pub fn model(&self) -> (model: Model)
        ensures
            model == self.model_spec(),
    {
        self.model
    }

    /// The handle to read from.
    pub fn device(&self) -> (device: &D)
        ensures
            *device == self.device_spec(),
    {
        &self.device
    }

    /// Gives the handle back and ends the driver.
    pub fn into_device(self) -> (device: D)
        ensures
            device == self.device_spec(),
    {
        self.device
    }

    /// The measurement that a read brought, where the transport's failure
    /// has been put into words already.
    pub fn read_described(&self, outcome: Result<usize, String>, buf: &[u8]) -> (reading: Result<
        DymoUnit,
        HidScaleError,
    >)
        ensures
            reading == interpret(outcome, buf@),
            outcome matches Err(description) ==> reading == Err::<DymoUnit, HidScaleError>(
                HidScaleError::CantReadDueTo(description),
            ),
            outcome matches Ok(count) ==> count < 6 ==> reading == Err::<DymoUnit, HidScaleError>(
                HidScaleError::NotEnoughData,
            ),
    {
        match self.model {
            Model::DymoS100 => match outcome {
                Ok(count) => {
                    if count < MIN_READ {
                        Err(HidScaleError::NotEnoughData)
                    } else if count <= buf.len() {
                        parse_buffer(slice_subrange(buf, 0, count))
                    } else {
                        parse_buffer(buf)
                    }
                },
                Err(description) => Err(HidScaleError::CantReadDueTo(description)),
            },
        }
    }

    /// The measurement that a read brought, in the unit the scale sent it.
    /// A transport error comes back as `CantReadDueTo` with a description
    /// that is not empty, and the buffer is then not looked at.
    pub fn read_raw(&self, outcome: Result<usize, HidError>, buf: &[u8]) -> (reading: Result<
        DymoUnit,
        HidScaleError,
    >)
        ensures
            match outcome {
                Ok(count) => reading == interpret(Ok(count), buf@),
                Err(_) => reading matches Err(HidScaleError::CantReadDueTo(d)) && d@.len() > 0,
            },
    {
        self.read_described(describe(outcome), buf)
    }

    /// The measurement as a force.
    pub fn read(&self, outcome: Result<usize, HidError>, buf: &[u8]) -> (force: Result<
        ForceReading,
        HidScaleError,
    >)
        ensures
            match outcome {
                Ok(count) => force == interpret_force(Ok(count), buf@),
                Err(_) => force matches Err(HidScaleError::CantReadDueTo(d)) && d@.len() > 0,
            },
    {
        match self.read_raw(outcome, buf) {
            Ok(reading) => Ok(reading.to_force()),
            Err(e) => Err(e),
        }
    }

    /// The measurement on the kilogram path.
    pub fn read_kilograms(&self, outcome: Result<usize, HidError>, buf: &[u8]) -> (kilograms:
        Result<Quantity, HidScaleError>)
        ensures
            match outcome {
                Ok(count) => kilograms == interpret_kilograms(Ok(count), buf@),
                Err(_) => kilograms matches Err(HidScaleError::CantReadDueTo(d)) && d@.len() > 0,
            },
    {
        match self.read_raw(outcome, buf) {
            Ok(reading) => Ok(reading.to_kilograms()),
            Err(e) => Err(e),
        }
    }

    /// The measurement on the pound path.
    pub fn read_pounds(&self, outcome: Result<usize, HidError>, buf: &[u8]) -> (pounds: Result<
        Quantity,
        HidScaleError,
    >)
        ensures
            match outcome {
                Ok(count) => pounds == interpret_pounds(Ok(count), buf@),
                Err(_) => pounds matches Err(HidScaleError::CantReadDueTo(d)) && d@.len() > 0,
            },
    {
        match self.read_raw(outcome, buf) {
            Ok(reading) => Ok(reading.to_pounds()),
            Err(e) => Err(e),
        }
    }
}

/// What lies in the buffer behind the bytes that were read has no part in
/// the result: two buffers that agree on the first `count` bytes give the
/// same reading.
pub proof fn lemma_read_ignores_the_rest(count: usize, a: Seq<u8>, b: Seq<u8>)
    requires
        count <= a.len(),
        count <= b.len(),
        forall|i: int| 0 <= i < count ==> a[i] == b[i],
    ensures
        interpret(Ok(count), a) == interpret(Ok(count), b),
        interpret_kilograms(Ok(count), a) == interpret_kilograms(Ok(count), b),
        interpret_pounds(Ok(count), a) == interpret_pounds(Ok(count), b),
        interpret_force(Ok(count), a) == interpret_force(Ok(count), b),
{
    assert(bytes_read(count, a) =~= bytes_read(count, b));
}

/// A read decodes to a measurement only where the six bytes of the
/// measurement were all read: a sync byte so late that fewer than six bytes
/// were read from it on gives `NotEnoughData`.
pub proof fn lemma_read_cut_off(count: usize, buf: Seq<u8>)
    requires
        6 <= count <= buf.len(),
        count < sync_offset(buf.subrange(0, count as int)) + 6,
    ensures
        interpret(Ok(count), buf) == Err::<DymoUnit, HidScaleError>(HidScaleError::NotEnoughData),
{
}

/// A transport that fails with a description that is not empty gives
/// `CantReadDueTo` with that description, which is then not empty either,
/// on each of the three paths and whatever the buffer holds.
pub proof fn lemma_transport_failure(description: String, buf: Seq<u8>)
    requires
        description@.len() > 0,
    ensures
        interpret(Err(description), buf) matches Err(HidScaleError::CantReadDueTo(d)) && d
            == description && d@.len() > 0,
        interpret_kilograms(Err(description), buf) == Err::<Quantity, HidScaleError>(
            HidScaleError::CantReadDueTo(description),
        ),
        interpret_pounds(Err(description), buf) == Err::<Quantity, HidScaleError>(
            HidScaleError::CantReadDueTo(description),
        ),
        interpret_force(Err(description), buf) == Err::<ForceReading, HidScaleError>(
            HidScaleError::CantReadDueTo(description),
        ),
{
}

/// A read that brought fewer than six bytes gives `NotEnoughData` on each
/// of the three paths, whatever the buffer holds.
pub proof fn lemma_short_read(count: usize, buf: Seq<u8>)
    requires
        count < 6,
    ensures
        interpret(Ok(count), buf) == Err::<DymoUnit, HidScaleError>(HidScaleError::NotEnoughData),
        interpret_kilograms(Ok(count), buf) == Err::<Quantity, HidScaleError>(
            HidScaleError::NotEnoughData,
        ),
        interpret_pounds(Ok(count), buf) == Err::<Quantity, HidScaleError>(
            HidScaleError::NotEnoughData,
        ),
        interpret_force(Ok(count), buf) == Err::<ForceReading, HidScaleError>(
            HidScaleError::NotEnoughData,
        ),
{
}

} // verus!
