//! The request adapter for a display matrix.

use crate::error::{is_failure_of, replied, reply, HalError, Status};
use crate::hal::{ActionResponse, GetMatrixInfoResponse, LEDMatrix};
use vstd::prelude::*;

verus! {

/// A request to write a colour image.
#[derive(Debug)]
pub struct WriteColorBufferRequest {
    pub buffer: Vec<u8>,
    pub width: u32,
    pub height: u32,
    pub format: String,
    pub brightness: u32,
}

/// Serves display requests from one backend.
pub struct LEDMatrixServiceImpl<L: LEDMatrix> {
    led_matrix: L,
}

impl<L: LEDMatrix> LEDMatrixServiceImpl<L> {
    /// An adapter in front of `led_matrix`.
    pub fn new(led_matrix: L) -> (s: Self)
        ensures
            s.backend() == led_matrix,
    {
        LEDMatrixServiceImpl { led_matrix }
    }

    /// The backend behind this adapter.
    pub closed spec fn backend(&self) -> L {
        self.led_matrix
    }

    /// Reads the geometry of the matrix: the backend is asked once, and its
    /// answer is the answer of the request, a failure as its client-visible
    /// status.
    pub fn get_matrix_info(&mut self) -> (r: Result<GetMatrixInfoResponse, Status>)
        ensures
            exists|outcome: Result<GetMatrixInfoResponse, HalError>|
                #[trigger] old(self).backend().gets_matrix_info(&final(self).backend(), outcome)
                    && replied("Failed to get matrix info"@, outcome, r),
            r is Err ==> is_failure_of(r->Err_0@, "Failed to get matrix info"@),
    {
        let outcome = self.led_matrix.get_matrix_info();
        let ghost asked = outcome;
        let r = reply("Failed to get matrix info", outcome);
        assert(old(self).backend().gets_matrix_info(&self.backend(), asked));
        r
    }

    /// Writes a one-bit-per-pixel image: the backend is asked once, with
    /// `buffer` as given, and its answer is the answer of the request, a
    /// failure as its client-visible status.
    pub fn write_buffer(&mut self, buffer: Vec<u8>) -> (r: Result<ActionResponse, Status>)
        ensures
            exists|outcome: Result<ActionResponse, HalError>|
                #[trigger] old(self).backend().writes_buffer(
                    &final(self).backend(),
                    buffer,
                    outcome,
                ) && replied("Failed to write buffer"@, outcome, r),
            r is Err ==> is_failure_of(r->Err_0@, "Failed to write buffer"@),
    {
        let outcome = self.led_matrix.write_buffer(buffer);
        let ghost asked = outcome;
        let r = reply("Failed to write buffer", outcome);
        assert(old(self).backend().writes_buffer(&self.backend(), buffer, asked));
        r
    }

    /// Writes a colour image: the backend is asked once, with the image,
    /// geometry, format and brightness of the request, and its answer is the
    /// answer of the request, a failure as its client-visible status.
    pub fn write_color_buffer(&mut self, request: WriteColorBufferRequest) -> (r: Result<
        ActionResponse,
        Status,
    >)
        ensures
            exists|outcome: Result<ActionResponse, HalError>|
                #[trigger] old(self).backend().writes_color_buffer(
                    &final(self).backend(),
                    request.buffer,
                    request.width,
                    request.height,
                    request.format,
                    request.brightness,
                    outcome,
                ) && replied("Failed to write color buffer"@, outcome, r),
            r is Err ==> is_failure_of(r->Err_0@, "Failed to write color buffer"@),
    {
        let outcome = self.led_matrix.write_color_buffer(
            request.buffer,
            request.width,
            request.height,
            request.format,
            request.brightness,
        );
        let ghost asked = outcome;
        let r = reply("Failed to write color buffer", outcome);
        assert(old(self).backend().writes_color_buffer(
            &self.backend(),
            request.buffer,
            request.width,
            request.height,
            request.format,
            request.brightness,
            asked,
        ));
        r
    }
}

} // verus!
