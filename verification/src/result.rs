//! The record of one acquisition outcome.

use vstd::prelude::*;

verus! {

/// One outcome of a retrieval: a captured frame, or a capture that failed.
///
/// The record owns its pixel data, so it stays valid when the slot of the
/// device that it was read from is used again.
#[derive(Clone, Debug, PartialEq, Eq)]
pub struct GrabResult {
    pub grab_succeeded: bool,
    pub error_code: u32,
    pub error_description: String,
    pub width: u32,
    pub height: u32,
    pub offset_x: u32,
    pub offset_y: u32,
    pub padding_x: u32,
    pub padding_y: u32,
    pub stride: usize,
    pub payload_size: u32,
    pub buffer_size: u32,
    pub image_size: u32,
    pub block_id: u64,
    pub time_stamp: u64,
    pub buffer: Vec<u8>,
}

impl GrabResult {
    /// A record that holds no outcome yet: the success flag is clear, every
    /// number is zero, the description and the pixel data are empty.
    pub fn new() -> (slot: GrabResult)
        ensures
            !slot.grab_succeeded,
            slot.error_code == 0,
            slot.error_description@ == Seq::<char>::empty(),
            slot.width == 0,
            slot.height == 0,
            slot.offset_x == 0,
            slot.offset_y == 0,
            slot.padding_x == 0,
            slot.padding_y == 0,
            slot.stride == 0,
            slot.payload_size == 0,
            slot.buffer_size == 0,
            slot.image_size == 0,
            slot.block_id == 0,
            slot.time_stamp == 0,
            slot.buffer@ == Seq::<u8>::empty(),
    {
        GrabResult {
            grab_succeeded: false,
            error_code: 0,
            error_description: String::new(),
            width: 0,
            height: 0,
            offset_x: 0,
            offset_y: 0,
            padding_x: 0,
            padding_y: 0,
            stride: 0,
            payload_size: 0,
            buffer_size: 0,
            image_size: 0,
            block_id: 0,
            time_stamp: 0,
            buffer: Vec::new(),
        }
    }

    /// Whether the capture succeeded.
    pub fn grab_succeeded(&self) -> (flag: bool)
        ensures
            flag == self.grab_succeeded,
    {
        self.grab_succeeded
    }

    /// The description of the failure, where the capture failed.
    pub fn error_description(&self) -> (text: &str)
        ensures
            text@ == self.error_description@,
    {
        self.error_description.as_str()
    }

    /// The code of the failure, where the capture failed.
    pub fn error_code(&self) -> (value: u32)
        ensures
            value == self.error_code,
    {
        self.error_code
    }

    /// The width of the image in pixels.
    pub fn width(&self) -> (value: u32)
        ensures
            value == self.width,
    {
        self.width
    }

    /// The height of the image in pixels.
    pub fn height(&self) -> (value: u32)
        ensures
            value == self.height,
    {
        self.height
    }

    /// The horizontal offset of the image on the sensor.
    pub fn offset_x(&self) -> (value: u32)
        ensures
            value == self.offset_x,
    {
        self.offset_x
    }

    /// The vertical offset of the image on the sensor.
    pub fn offset_y(&self) -> (value: u32)
        ensures
            value == self.offset_y,
    {
        self.offset_y
    }

    /// The number of bytes that pad each line.
    pub fn padding_x(&self) -> (value: u32)
        ensures
            value == self.padding_x,
    {
        self.padding_x
    }

    /// The number of bytes that pad the image.
    pub fn padding_y(&self) -> (value: u32)
        ensures
            value == self.padding_y,
    {
        self.padding_y
    }

    /// The pixel data.
    pub fn buffer(&self) -> (bytes: &[u8])
        ensures
            bytes@ == self.buffer@,
    {
        self.buffer.as_slice()
    }

    /// The size of the payload in bytes.
    pub fn payload_size(&self) -> (value: u32)
        ensures
            value == self.payload_size,
    {
        self.payload_size
    }

    /// The size of the buffer in bytes.
    pub fn buffer_size(&self) -> (value: u32)
        ensures
            value == self.buffer_size,
    {
        self.buffer_size
    }

    /// The number that the device counts its frames with.
    pub fn block_id(&self) -> (value: u64)
        ensures
            value == self.block_id,
    {
        self.block_id
    }

    /// The time of the capture on the clock of the device.
    pub fn time_stamp(&self) -> (value: u64)
        ensures
            value == self.time_stamp,
    {
        self.time_stamp
    }

    /// The number of bytes from one line to the next.
    pub fn stride(&self) -> (value: usize)
        ensures
            value == self.stride,
    {
        self.stride
    }

    /// The size of the image in bytes.
    pub fn image_size(&self) -> (value: u32)
        ensures
            value == self.image_size,
    {
        self.image_size
    }
}

} // verus!
