//! The disk handle: one native resource for one block device, from the open
//! that acquires it to the close that frees it.
//!
//! The handle makes no native call. Its driver makes the call that belongs to
//! an operation, captures the call's [`Status`] and hands it over with what
//! the call produced; the operation says what the caller gets.

use crate::error::SmartError;
use crate::identify::{identify_is_text, identify_text, IdentifyParsedData};
use crate::kinds::OverallStatus;
use crate::lifecycle::{Event, Phase};
use crate::status::{decode_bool, Status};
use vstd::prelude::*;

verus! {

/// Our ata smart disk
#[derive(Debug)]
pub struct Disk {
    /// The path in the filesystem to the hard drive
    pub disk: String,
    phase: Phase,
    identify_due: bool,
}

/// A handle as the contracts see it.
pub struct DiskView {
    /// The path that the handle was opened with.
    pub path: Seq<char>,
    /// The phase of life that the handle is in.
    pub phase: Phase,
    /// Whether the device has just reported that it has identify data, so
    /// that the reply of the native parse is due.
    pub identify_due: bool,
}

impl View for Disk {
    type V = DiskView;

    closed spec fn view(&self) -> DiskView {
        DiskView { path: self.disk@, phase: self.phase, identify_due: self.identify_due }
    }
}

/// What the reply to the availability query means for a request for identify
/// data: the error of a failed query, `Unsupported` where the device has no
/// identify data, else leave to parse it.
pub open spec fn identify_permission(status: Status, available: u32) -> Result<(), SmartError> {
    if status.failed() {
        Err(SmartError::Device { code: status.errno })
    } else if available == 0 {
        Err(SmartError::Unsupported)
    } else {
        Ok(())
    }
}

/// The error of a request for identify data that yields none: `Unsupported`
/// where the parse was not due, the device error of a failed parse, `Decode`
/// for what is left, buffers that do not hold text.
pub open spec fn identify_error(due: bool, status: Status) -> SmartError {
    if !due {
        SmartError::Unsupported
    } else if status.failed() {
        SmartError::Device { code: status.errno }
    } else {
        SmartError::Decode
    }
}

impl Disk {
    /// The path that the handle was opened with.
    pub fn path(&self) -> (path: &str)
        ensures
            path@ == self@.path,
    {
        self.disk.as_str()
    }

    /// The phase of life that the handle is in.
    pub fn phase(&self) -> (phase: Phase)
        ensures
            phase == self@.phase,
    {
        self.phase
    }

    /// Whether operations are valid on the handle.
    pub fn is_open(&self) -> (b: bool)
        ensures
            b == (self@.phase is Open),
    {
        match self.phase {
            Phase::Open => true,
            _ => false,
        }
    }

    /// Makes the handle of the device at `disk_path` from the status of the
    /// native open.
    ///
    /// A failed open yields its device error and no handle, so that nothing
    /// is left to release. A successful one yields a handle that holds the
    /// native resource and whose attribute data is still to be read: the
    /// construction ends with the first [`Disk::refresh_smart_data`].
    pub fn new(disk_path: &str, status: Status) -> (r: Result<Disk, SmartError>)
        ensures
            match r {
                Ok(disk) => {
                    &&& !status.failed()
                    &&& disk@.path == disk_path@
                    &&& disk@.phase == Phase::Uninitialized.step(Event::Open { ok: true })
                    &&& !disk@.identify_due
                },
                Err(e) => status.failed() && e == SmartError::Device { code: status.errno },
            },
    {
        match status.into_result(()) {
            Ok(()) => {
                let (phase, _) = Phase::Uninitialized.advance(Event::Open { ok: true });
                Ok(Disk { disk: disk_path.to_owned(), phase, identify_due: false })
            },
            Err(e) => Err(e),
        }
    }

    /// Takes the status of a native attribute read.
    ///
    /// The first read after the open ends the construction: where it fails
    /// the handle is good for nothing but [`Disk::close`]. A later read
    /// refreshes the attribute data that the native layer caches; where it
    /// fails the handle stays open.
    pub fn refresh_smart_data(&mut self, status: Status) -> (r: Result<(), SmartError>)
        requires
            old(self)@.phase.can_read(),
        ensures
            r == status.outcome(()),
            final(self)@ == (DiskView {
                phase: old(self)@.phase.step(Event::Read { ok: !status.failed() }),
                ..old(self)@
            }),
    {
        let (phase, _) = self.phase.advance(Event::Read { ok: !status.is_failure() });
        self.phase = phase;
        status.into_result(())
    }

    /// Gives the handle up. Returns whether the native resource is to be
    /// freed now: `true` the first time a handle that holds one is closed,
    /// `false` ever after.
    pub fn close(&mut self) -> (free: bool)
        ensures
            free == old(self)@.phase.frees(Event::Close),
            final(self)@ == (DiskView {
                phase: old(self)@.phase.step(Event::Close),
                ..old(self)@
            }),
    {
        let (phase, free) = self.phase.advance(Event::Close);
        self.phase = phase;
        free
    }

    /// Returns a u64 representing the size of the disk in bytes.
    pub fn get_disk_size(&mut self, status: Status, bytes: u64) -> (r: Result<u64, SmartError>)
        requires
            old(self)@.phase is Open,
        ensures
            final(self)@ == old(self)@,
            r == status.outcome(bytes),
    {
        status.into_result(bytes)
    }

    /// Returns a bool of true if sleep mode is supported, false otherwise.
    pub fn check_sleep_mode(&mut self, status: Status, mode: u32) -> (r: Result<bool, SmartError>)
        requires
            old(self)@.phase is Open,
        ensures
            final(self)@ == old(self)@,
            r == status.outcome(mode != 0),
    {
        status.into_result(decode_bool(mode))
    }

    /// Returns a u64 representing the power on time in milliseconds
    pub fn get_power_on(&mut self, status: Status, mseconds: u64) -> (r: Result<u64, SmartError>)
        requires
            old(self)@.phase is Open,
        ensures
            final(self)@ == old(self)@,
            r == status.outcome(mseconds),
    {
        status.into_result(mseconds)
    }

    /// Returns a u64 representing the number of power on cycles
    pub fn get_power_cycle_count(&mut self, status: Status, count: u64) -> (r: Result<
        u64,
        SmartError,
    >)
        requires
            old(self)@.phase is Open,
        ensures
            final(self)@ == old(self)@,
            r == status.outcome(count),
    {
        status.into_result(count)
    }

    /// Returns a u64 representing the number of bad sections on the disk
    pub fn get_bad_sectors(&mut self, status: Status, sectors: u64) -> (r: Result<u64, SmartError>)
        requires
            old(self)@.phase is Open,
        ensures
            final(self)@ == old(self)@,
            r == status.outcome(sectors),
    {
        status.into_result(sectors)
    }

    /// Returns a u64 representing the mkelvin of the disk
    pub fn get_temperature(&mut self, status: Status, mkelvin: u64) -> (r: Result<u64, SmartError>)
        requires
            old(self)@.phase is Open,
        ensures
            final(self)@ == old(self)@,
            r == status.outcome(mkelvin),
    {
        status.into_result(mkelvin)
    }

    /// Returns true if the disk passed smart, false otherwise.
    pub fn get_smart_status(&mut self, status: Status, good: u32) -> (r: Result<bool, SmartError>)
        requires
            old(self)@.phase is Open,
        ensures
            final(self)@ == old(self)@,
            r == status.outcome(good != 0),
    {
        status.into_result(decode_bool(good))
    }

    /// Takes the status of the native dump, which writes all it knows of the
    /// drive to the native layer's own output.
    pub fn dump(&mut self, status: Status) -> (r: Result<(), SmartError>)
        requires
            old(self)@.phase is Open,
        ensures
            final(self)@ == old(self)@,
            r == status.outcome(()),
    {
        status.into_result(())
    }

    /// Whether the device has identify data.
    pub fn identify_is_available(&mut self, status: Status, available: u32) -> (r: Result<
        bool,
        SmartError,
    >)
        requires
            old(self)@.phase is Open,
        ensures
            final(self)@ == old(self)@,
            r == status.outcome(available != 0),
    {
        status.into_result(decode_bool(available))
    }

    /// Query the device and return whether or not smart is supported on it
    pub fn smart_is_available(&mut self, status: Status, available: u32) -> (r: Result<
        bool,
        SmartError,
    >)
        requires
            old(self)@.phase is Open,
        ensures
            final(self)@ == old(self)@,
            r == status.outcome(available != 0),
    {
        status.into_result(decode_bool(available))
    }

    /// Takes the status of the native walk over the attributes.
    pub fn parse_attributes(&mut self, status: Status) -> (r: Result<(), SmartError>)
        requires
            old(self)@.phase is Open,
        ensures
            final(self)@ == old(self)@,
            r == status.outcome(()),
    {
        status.into_result(())
    }

    /// Whether a particular smart test is supported, from the native answer
    /// to that question. The native layer answers from attribute data that
    /// was read before, without a call on the device, so there is no status
    /// and no failure.
    pub fn smart_test_available(&mut self, available: u32) -> (r: Result<bool, SmartError>)
        requires
            old(self)@.phase is Open,
        ensures
            final(self)@ == old(self)@,
            r == Ok::<bool, SmartError>(available != 0),
    {
        Ok(decode_bool(available))
    }

    /// Takes the status of the native command that starts a self-test. The
    /// test runs on the device; the command does not wait for it.
    pub fn execute_smart_self_test(&mut self, status: Status) -> (r: Result<(), SmartError>)
        requires
            old(self)@.phase is Open,
        ensures
            final(self)@ == old(self)@,
            r == status.outcome(()),
    {
        status.into_result(())
    }

    /// The overall health of the device, as the native layer reported it.
    pub fn smart_get_overall(&mut self, status: Status, overall: OverallStatus) -> (r: Result<
        OverallStatus,
        SmartError,
    >)
        requires
            old(self)@.phase is Open,
        ensures
            final(self)@ == old(self)@,
            r == status.outcome(overall),
    {
        status.into_result(overall)
    }

    /// First step of a request for identify data: takes the reply to the
    /// availability query and says whether the native parse is to be called.
    ///
    /// `Ok` is the leave to call it, and the handle notes that the reply of
    /// the parse is due. Where the device has no identify data the answer is
    /// `Unsupported`: the parse is not to be attempted, and the handle would
    /// refuse its reply.
    pub fn identify_begin(&mut self, status: Status, available: u32) -> (r: Result<
        (),
        SmartError,
    >)
        requires
            old(self)@.phase is Open,
        ensures
            r == identify_permission(status, available),
            final(self)@ == (DiskView { identify_due: r is Ok, ..old(self)@ }),
    {
        let r = if decode_bool(available) {
            status.into_result(())
        } else {
            match status.into_result(()) {
                Ok(()) => Err(SmartError::Unsupported),
                Err(e) => Err(e),
            }
        };
        self.identify_due = r.is_ok();
        r
    }

    /// Get the model, firmware, and serial of the disk as a
    /// IdentifyParsedData struct, from the status of the native parse and the
    /// three text buffers it filled.
    ///
    /// The reply is taken only where [`Disk::identify_begin`] has just given
    /// leave to parse; else the answer is `Unsupported`, whatever is handed
    /// over. Fails with the device error of a failed parse, and with
    /// `Decode` where a buffer does not hold valid text.
    pub fn identify_parse(
        &mut self,
        status: Status,
        serial: &[u8],
        firmware: &[u8],
        model: &[u8],
    ) -> (r: Result<IdentifyParsedData, SmartError>)
        requires
            old(self)@.phase is Open,
        ensures
            final(self)@ == (DiskView { identify_due: false, ..old(self)@ }),
            match r {
                Ok(data) => {
                    &&& old(self)@.identify_due
                    &&& !status.failed()
                    &&& identify_is_text(serial@, firmware@, model@)
                    &&& data@ == identify_text(serial@, firmware@, model@)
                },
                Err(e) => {
                    &&& e == identify_error(old(self)@.identify_due, status)
                    &&& e == SmartError::Decode ==> !identify_is_text(serial@, firmware@, model@)
                },
            },
    {
        let due = self.identify_due;
        self.identify_due = false;
        if !due {
            return Err(SmartError::Unsupported);
        }
        match status.into_result(()) {
            Ok(()) => IdentifyParsedData::decode(serial, firmware, model),
            Err(e) => Err(e),
        }
    }
}

/// Identify data is parsed only for a device that has it. Where the
/// availability query says that there is none, which is what
/// `identify_is_available` reports as `Ok(false)`, the request is answered
/// with `Unsupported` and no parse is due; and the reply of a parse that is
/// not due never yields data.
pub proof fn lemma_identify_needs_availability(status: Status, available: u32, parsed: Status)
    ensures
        status.outcome(available != 0) == Ok::<bool, SmartError>(false) ==> identify_permission(
            status,
            available,
        ) == Err::<(), SmartError>(SmartError::Unsupported),
        identify_permission(status, available) is Ok <==> status.outcome(available != 0) == Ok::<
            bool,
            SmartError,
        >(true),
        identify_error(false, parsed) == SmartError::Unsupported,
{
}

} // verus!
