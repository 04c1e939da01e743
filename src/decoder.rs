//! The decoding session: the checks around each step of a scan, and the
//! cursor that walks the detected codes.
//!
//! The engine's own calls (allocation, resizing, the scan itself, counting
//! and extracting codes) happen outside this module; each step here takes
//! what the engine answered and decides what follows.
use vstd::prelude::*;
use vstd::utf8::valid_utf8;
use vstd::string::StringSliceAdditionalSpecFns;
use libc::c_int;
use crate::error::Error;
use crate::geom::{Image, Vec2D};
use crate::util::{usize_to_int, utf8_text};

verus! {

/// A QR code decoder session.
#[derive(Debug)]
pub struct Decoder {
    /// Dimensions of the scan buffer that the engine last granted.
    buffer: Option<Vec2D>,
}

impl Decoder {
    /// Dimensions of the scan buffer that the engine last granted, if any.
    pub closed spec fn buffer_size(&self) -> Option<Vec2D> {
        self.buffer
    }

    /// Starts a session once the engine has been asked for a handle;
    /// fails with `AllocFailed` when it gave none.
    pub fn new(allocated: bool) -> (r: Result<Decoder, Error>)
        ensures
            r is Ok <==> allocated,
            r matches Ok(d) ==> d.buffer_size() is None,
            !allocated ==> r == Err::<Decoder, Error>(Error::AllocFailed),
    {
        if allocated {
            Ok(Decoder { buffer: None })
        } else {
            Err(Error::AllocFailed)
        }
    }

    /// The engine's version string, given as the bytes it reported (if it
    /// reported any); empty when there are none or they are not UTF-8.
    pub fn version(raw: Option<&'static [u8]>) -> (r: &'static str)
        ensures
            (raw matches Some(b) && valid_utf8(b@)) ==> r.spec_bytes() == raw->Some_0@,
            !(raw matches Some(b) && valid_utf8(b@)) ==> r@.len() == 0,
    {
        proof {
            reveal_strlit("");
        }
        match raw {
            Some(bytes) => match utf8_text(bytes) {
                Ok(text) => text,
                Err(_) => "",
            },
            None => "",
        }
    }

    /// First step of a scan: the image's dimensions in the engine's integer
    /// type, or `IntOverflow` when either does not fit.
    pub fn scan_size(image: &Image) -> (r: Result<(c_int, c_int), Error>)
        ensures
            r is Ok <==> (image.dims().x <= c_int::MAX && image.dims().y <= c_int::MAX),
            r matches Ok((w, h)) ==> w == image.dims().x && h == image.dims().y,
            r is Err ==> r == Err::<(c_int, c_int), Error>(Error::IntOverflow),
    {
        let width = usize_to_int(image.width())?;
        let height = usize_to_int(image.height())?;
        Ok((width, height))
    }

    /// Second step of a scan: the engine's answer to resizing its buffer to
    /// the image. Zero grants the buffer; anything else is `AllocFailed`,
    /// and the session then holds no buffer.
    pub fn resized(&mut self, image: &Image, status: c_int) -> (r: Result<(), Error>)
        ensures
            status == 0 ==> r is Ok && final(self).buffer_size() == Some(image.dims()),
            status != 0 ==> r == Err::<(), Error>(Error::AllocFailed)
                && final(self).buffer_size() is None,
    {
        if status == 0 {
            self.buffer = Some(Vec2D { x: image.width(), y: image.height() });
            Ok(())
        } else {
            self.buffer = None;
            Err(Error::AllocFailed)
        }
    }

    /// Third step of a scan: copies the image's bytes, verbatim and in
    /// row-major order, into the buffer the engine handed out for it.
    pub fn fill_buffer(&self, buf: &mut [u8], image: &Image)
        requires
            self.buffer_size() == Some(image.dims()),
            old(buf)@.len() == image.pixels().len(),
        ensures
            final(buf)@ == image.pixels(),
    {
        let data = image.data();
        let n = data.len();
        let mut i: usize = 0;
        while i < n
            invariant
                n == data@.len(),
                data@ == image.pixels(),
                buf@.len() == n,
                i <= n,
                forall|j: int| 0 <= j < i ==> buf@[j] == data@[j],
            decreases n - i,
        {
            buf[i] = data[i];
            i += 1;
        }
        assert(buf@ =~= image.pixels());
    }

    /// Last step of a scan, once the engine has processed the buffer: a
    /// fresh cursor over the codes it detected.
    pub fn detections(&mut self) -> (r: Iter)
        ensures
            r.cursor() == 0,
            !r.finished(),
            final(self).buffer_size() == old(self).buffer_size(),
    {
        Iter::new()
    }
}

/// Whether a step of the cursor at `cursor` yields a code when the engine
/// reports `count` codes.
pub open spec fn step_yields(cursor: int, finished: bool, count: int) -> bool {
    !finished && cursor < count
}

/// The cursor's state after one step.
pub open spec fn step_state(cursor: int, finished: bool, count: int) -> (int, bool) {
    if step_yields(cursor, finished, count) {
        (cursor + 1, false)
    } else {
        (cursor, true)
    }
}

/// The number of codes still to come.
pub open spec fn remaining(cursor: int, finished: bool, count: int) -> int {
    if step_yields(cursor, finished, count) {
        count - cursor
    } else {
        0
    }
}

/// The cursor's state after `steps` steps from a fresh cursor, while the
/// engine reports `count` codes throughout.
pub open spec fn state_after(count: int, steps: nat) -> (int, bool)
    decreases steps,
{
    if steps == 0 {
        (0, false)
    } else {
        let s = state_after(count, (steps - 1) as nat);
        step_state(s.0, s.1, count)
    }
}

/// A cursor over the QR codes detected in an image.
///
/// Once it has run past the last code it stays finished.
#[derive(Debug)]
pub struct Iter {
    /// The index of the next code to extract.
    index: c_int,
    /// Whether the end has been reached.
    done: bool,
}

impl Iter {
    #[verifier::type_invariant]
    spec fn well_formed(&self) -> bool {
        self.index >= 0
    }

    /// The index of the next code to extract.
    pub closed spec fn cursor(&self) -> int {
        self.index as int
    }

    /// Whether the end has been reached.
    pub closed spec fn finished(&self) -> bool {
        self.done
    }

    /// A cursor at the first code.
    pub fn new() -> (r: Iter)
        ensures
            r.cursor() == 0,
            !r.finished(),
    {
        Iter { index: 0, done: false }
    }

    /// One step, given the engine's current count of detected codes: the
    /// index of the code to extract next, or `None` once the codes are
    /// exhausted, for this and every later step.
    pub fn next_index(&mut self, count: c_int) -> (r: Option<c_int>)
        requires
            count >= 0,
        ensures
            step_yields(old(self).cursor(), old(self).finished(), count as int)
                ==> r == Some(old(self).cursor() as c_int),
            !step_yields(old(self).cursor(), old(self).finished(), count as int) ==> r is None,
            (final(self).cursor(), final(self).finished())
                == step_state(old(self).cursor(), old(self).finished(), count as int),
    {
        proof {
            use_type_invariant(&*self);
        }
        if !self.done && self.index < count {
            let index = self.index;
            self.index = index + 1;
            Some(index)
        } else {
            self.done = true;
            None
        }
    }

    /// The exact number of codes still to come, given the engine's current
    /// count: `count - cursor`, or zero once nothing remains.
    pub fn size_hint(&self, count: c_int) -> (r: (usize, Option<usize>))
        requires
            count >= 0,
        ensures
            r.0 == remaining(self.cursor(), self.finished(), count as int),
            r.1 == Some(r.0),
    {
        proof {
            use_type_invariant(self);
        }
        let n: usize = if !self.done && self.index < count {
            (count - self.index) as usize
        } else {
            0
        };
        (n, Some(n))
    }
}

/// While the engine reports `count` codes, a fresh cursor yields exactly
/// the indices `0, 1, ..., count - 1`, each once and in order, and then
/// nothing more; before each step the remaining-length estimate equals the
/// number of codes still to come.
pub proof fn lemma_iteration_exact(count: int, steps: nat)
    requires
        count >= 0,
    ensures
        state_after(count, steps) == (if steps <= count {
            (steps as int, false)
        } else {
            (count, true)
        }),
        step_yields(state_after(count, steps).0, state_after(count, steps).1, count)
            <==> steps < count,
        step_yields(state_after(count, steps).0, state_after(count, steps).1, count)
            ==> state_after(count, steps).0 == steps,
        remaining(state_after(count, steps).0, state_after(count, steps).1, count)
            == if steps < count {
            count - steps
        } else {
            0
        },
    decreases steps,
{
    if steps > 0 {
        lemma_iteration_exact(count, (steps - 1) as nat);
    }
}

} // verus!
