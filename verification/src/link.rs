//! The line to the hardware, without the hardware.
//!
//! The library performs no input or output. A procedure that needs the device
//! asks through a [`Link`], which answers from a transcript: the exchanges
//! that the host has carried out so far, in order. A question beyond the end
//! of the transcript gets no answer, and the run goes on as if the operation
//! had failed; afterwards the link tells which operation the host has to
//! carry out next. The host appends the exchange and runs the procedure again
//! from the same state. A run counts only when it asked exactly what the
//! transcript records.

use crate::device::{BatteryCare, FanMode, LightsAlwaysOn, LogoMode, PerfMode};
use vstd::prelude::*;
use vstd::string::*;

verus! {

/// One operation that the host carries out for the library.
#[derive(Debug, Clone, Copy, PartialEq, Eq, Structural)]
pub enum Op {
    /// Find the device and open it.
    Detect,
    /// Ask the operating system whether the machine runs on mains power.
    PowerSource,
    GetPerfMode,
    SetPerfMode(PerfMode),
    /// Read the configured fan speed.
    GetFanRpm,
    /// Read the measured fan speed.
    GetFanActualRpm,
    SetFanMode(FanMode),
    SetFanRpm(u16),
    GetLogoMode,
    SetLogoMode(LogoMode),
    GetKeyboardBrightness,
    SetKeyboardBrightness(u8),
    GetLightsAlwaysOn,
    SetLightsAlwaysOn(LightsAlwaysOn),
    GetBatteryCare,
    SetBatteryCare(BatteryCare),
    /// Wait for the given number of milliseconds.
    Settle(u64),
}

impl Op {
    /// Whether the operation changes a setting of the device.
    pub open spec fn writes(self) -> bool {
        match self {
            Op::SetPerfMode(_) => true,
            Op::SetFanMode(_) => true,
            Op::SetFanRpm(_) => true,
            Op::SetLogoMode(_) => true,
            Op::SetKeyboardBrightness(_) => true,
            Op::SetLightsAlwaysOn(_) => true,
            Op::SetBatteryCare(_) => true,
            _ => false,
        }
    }

    /// Whether the operation changes a setting of the device.
    pub fn is_write(&self) -> (b: bool)
        ensures
            b == self.writes(),
    {
        match self {
            Op::SetPerfMode(_) => true,
            Op::SetFanMode(_) => true,
            Op::SetFanRpm(_) => true,
            Op::SetLogoMode(_) => true,
            Op::SetKeyboardBrightness(_) => true,
            Op::SetLightsAlwaysOn(_) => true,
            Op::SetBatteryCare(_) => true,
            _ => false,
        }
    }
}

/// What the device's descriptor tells about the unit.
#[derive(Debug, Clone)]
pub struct DeviceInfo {
    pub name: String,
    /// The performance modes the unit supports, where the descriptor lists them.
    pub perf_modes: Option<Vec<PerfMode>>,
}

/// What an operation hands back when it succeeds.
#[derive(Debug, Clone)]
pub enum Value {
    /// The operation was carried out; it has nothing to report.
    Done,
    Attached(DeviceInfo),
    /// `true` on mains power.
    Power(bool),
    Modes(PerfMode, FanMode),
    Rpm(u16),
    Logo(LogoMode),
    Brightness(u8),
    Lights(LightsAlwaysOn),
    Care(BatteryCare),
}

/// An operation that the host carried out, with its outcome: the value, or
/// the failure's message.
#[derive(Debug)]
pub struct Exchange {
    pub op: Op,
    pub reply: Result<Value, String>,
}

impl Clone for Exchange {
    fn clone(&self) -> (copy: Self)
        ensures
            copy.op == self.op,
    {
        let reply = match &self.reply {
            Ok(value) => Ok(value.clone()),
            Err(message) => Err(message.clone()),
        };
        Exchange { op: self.op, reply }
    }
}

/// Text that stands for the failure of a question without a usable answer.
pub open spec fn no_answer() -> Seq<char> {
    "no answer"@
}

/// An outcome with the failure's message as a sequence of characters.
pub open spec fn told<T>(r: Result<T, String>) -> Result<T, Seq<char>> {
    match r {
        Ok(v) => Ok(v),
        Err(e) => Err(e@),
    }
}

/// The value of an outcome, if it has one.
pub open spec fn got<T>(r: Result<T, Seq<char>>) -> Option<T> {
    match r {
        Ok(v) => Some(v),
        Err(_) => None,
    }
}

/// Mathematical value of a link: the transcript, and the operations asked
/// for so far in this run.
pub struct Wire {
    pub script: Seq<Exchange>,
    pub asked: Seq<Op>,
}

/// Where a run stands against its transcript.
#[derive(Debug, Clone, Copy, PartialEq, Eq, Structural)]
pub enum Standing {
    /// The run asked exactly the operations of the transcript.
    Settled,
    /// The run agrees with the transcript and needs this operation next.
    Waiting(Op),
    /// The run asked something else than the transcript records.
    Diverged,
}

impl Wire {
    /// A link at the start of a run.
    pub open spec fn fresh(script: Seq<Exchange>) -> Wire {
        Wire { script, asked: Seq::empty() }
    }

    /// The recorded outcome for the next question, if the transcript has one
    /// for this operation at this place.
    pub open spec fn answer(self, op: Op) -> Option<Result<Value, String>> {
        let i = self.asked.len() as int;
        if i < self.script.len() && self.script[i].op == op {
            Some(self.script[i].reply)
        } else {
            None
        }
    }

    /// The link after `op` was asked for.
    pub open spec fn after(self, op: Op) -> Wire {
        Wire { script: self.script, asked: self.asked.push(op) }
    }

    /// Whether the first `n` questions are those of the transcript.
    pub open spec fn agrees(self, n: int) -> bool {
        forall|i: int| 0 <= i < n ==> (#[trigger] self.script[i]).op == self.asked[i]
    }

    /// Where the run stands against its transcript.
    pub open spec fn standing(self) -> Standing {
        if self.asked.len() == self.script.len() && self.agrees(self.script.len() as int) {
            Standing::Settled
        } else if self.asked.len() > self.script.len() && self.agrees(self.script.len() as int) {
            Standing::Waiting(self.asked[self.script.len() as int])
        } else {
            Standing::Diverged
        }
    }

    /// The outcome of an operation that reports nothing but success: any
    /// recorded value counts as success.
    pub open spec fn done(self, op: Op) -> Result<(), Seq<char>> {
        match self.answer(op) {
            Some(Ok(_)) => Ok(()),
            Some(Err(e)) => Err(e@),
            None => Err(no_answer()),
        }
    }

    /// The outcome of looking for the device.
    pub open spec fn device(self) -> Result<DeviceInfo, Seq<char>> {
        match self.answer(Op::Detect) {
            Some(Ok(Value::Attached(info))) => Ok(info),
            Some(Err(e)) => Err(e@),
            _ => Err(no_answer()),
        }
    }

    /// The outcome of asking for the power source.
    pub open spec fn power(self) -> Result<bool, Seq<char>> {
        match self.answer(Op::PowerSource) {
            Some(Ok(Value::Power(ac))) => Ok(ac),
            Some(Err(e)) => Err(e@),
            _ => Err(no_answer()),
        }
    }

    /// The outcome of reading performance mode and fan mode.
    pub open spec fn modes(self) -> Result<(PerfMode, FanMode), Seq<char>> {
        match self.answer(Op::GetPerfMode) {
            Some(Ok(Value::Modes(perf, fan))) => Ok((perf, fan)),
            Some(Err(e)) => Err(e@),
            _ => Err(no_answer()),
        }
    }

    /// The outcome of reading a fan speed with `op`.
    pub open spec fn rpm(self, op: Op) -> Result<u16, Seq<char>> {
        match self.answer(op) {
            Some(Ok(Value::Rpm(rpm))) => Ok(rpm),
            Some(Err(e)) => Err(e@),
            _ => Err(no_answer()),
        }
    }

    /// The outcome of reading the logo mode.
    pub open spec fn logo(self) -> Result<LogoMode, Seq<char>> {
        match self.answer(Op::GetLogoMode) {
            Some(Ok(Value::Logo(mode))) => Ok(mode),
            Some(Err(e)) => Err(e@),
            _ => Err(no_answer()),
        }
    }

    /// The outcome of reading the keyboard brightness.
    pub open spec fn brightness(self) -> Result<u8, Seq<char>> {
        match self.answer(Op::GetKeyboardBrightness) {
            Some(Ok(Value::Brightness(level))) => Ok(level),
            Some(Err(e)) => Err(e@),
            _ => Err(no_answer()),
        }
    }

    /// The outcome of reading the lights-always-on flag.
    pub open spec fn lights(self) -> Result<LightsAlwaysOn, Seq<char>> {
        match self.answer(Op::GetLightsAlwaysOn) {
            Some(Ok(Value::Lights(flag))) => Ok(flag),
            Some(Err(e)) => Err(e@),
            _ => Err(no_answer()),
        }
    }

    /// The outcome of reading the battery-care flag.
    pub open spec fn care(self) -> Result<BatteryCare, Seq<char>> {
        match self.answer(Op::GetBatteryCare) {
            Some(Ok(Value::Care(flag))) => Ok(flag),
            Some(Err(e)) => Err(e@),
            _ => Err(no_answer()),
        }
    }
}

/// A run's line to the device: it answers from a transcript and records what
/// was asked.
pub struct Link<'a> {
    script: &'a Vec<Exchange>,
    asked: Vec<Op>,
}

impl<'a> View for Link<'a> {
    type V = Wire;

    closed spec fn view(&self) -> Wire {
        Wire { script: self.script@, asked: self.asked@ }
    }
}

fn unanswered() -> (e: String)
    ensures
        e@ == no_answer(),
{
    String::from_str("no answer")
}

impl<'a> Link<'a> {
    /// A link at the start of a run over `script`.
    pub fn new(script: &'a Vec<Exchange>) -> (link: Self)
        ensures
            link@ == Wire::fresh(script@),
    {
        Link { script, asked: Vec::new() }
    }

    /// The operations asked for so far.
    pub fn asked(&self) -> (ops: &Vec<Op>)
        ensures
            ops@ == self@.asked,
    {
        &self.asked
    }

    /// Where the run stands against the transcript.
    pub fn standing(&self) -> (s: Standing)
        ensures
            s == self@.standing(),
    {
        let script: &Vec<Exchange> = self.script;
        let mut i: usize = 0;
        while i < script.len() && i < self.asked.len()
            invariant
                script@ == self@.script,
                0 <= i <= script.len(),
                i <= self.asked.len(),
                self@.agrees(i as int),
            decreases script.len() - i,
        {
            if script[i].op != self.asked[i] {
                assert(!self@.agrees(script.len() as int));
                return Standing::Diverged;
            }
            i = i + 1;
        }
        if i < script.len() {
            Standing::Diverged
        } else if i < self.asked.len() {
            Standing::Waiting(self.asked[i])
        } else {
            Standing::Settled
        }
    }

    fn ask(&mut self, op: Op) -> (reply: Option<&'a Result<Value, String>>)
        ensures
            final(self)@ == old(self)@.after(op),
            match reply {
                Some(r) => old(self)@.answer(op) == Some(*r),
                None => old(self)@.answer(op).is_none(),
            },
    {
        let i = self.asked.len();
        self.asked.push(op);
        let script: &'a Vec<Exchange> = self.script;
        if i < script.len() && script[i].op == op {
            Some(&script[i].reply)
        } else {
            None
        }
    }

    /// Has the host carry out `op` and tells whether it succeeded.
    pub fn order(&mut self, op: Op) -> (r: Result<(), String>)
        ensures
            final(self)@ == old(self)@.after(op),
            told(r) == old(self)@.done(op),
    {
        match self.ask(op) {
            Some(Ok(_)) => Ok(()),
            Some(Err(e)) => Err(e.clone()),
            None => Err(unanswered()),
        }
    }

    fn read_rpm(&mut self, op: Op) -> (r: Result<u16, String>)
        ensures
            final(self)@ == old(self)@.after(op),
            told(r) == old(self)@.rpm(op),
    {
        match self.ask(op) {
            Some(Ok(Value::Rpm(rpm))) => Ok(*rpm),
            Some(Err(e)) => Err(e.clone()),
            _ => Err(unanswered()),
        }
    }

    /// Finds the device and opens it.
    pub fn detect(&mut self) -> (r: Result<&'a DeviceInfo, String>)
        ensures
            final(self)@ == old(self)@.after(Op::Detect),
            match r {
                Ok(info) => old(self)@.device() == Ok::<DeviceInfo, Seq<char>>(*info),
                Err(e) => old(self)@.device() == Err::<DeviceInfo, Seq<char>>(e@),
            },
    {
        match self.ask(Op::Detect) {
            Some(Ok(Value::Attached(info))) => Ok(info),
            Some(Err(e)) => Err(e.clone()),
            _ => Err(unanswered()),
        }
    }

    /// Whether the machine runs on mains power.
    pub fn power_source(&mut self) -> (r: Result<bool, String>)
        ensures
            final(self)@ == old(self)@.after(Op::PowerSource),
            told(r) == old(self)@.power(),
    {
        match self.ask(Op::PowerSource) {
            Some(Ok(Value::Power(ac))) => Ok(*ac),
            Some(Err(e)) => Err(e.clone()),
            _ => Err(unanswered()),
        }
    }

    /// The performance mode and the fan mode.
    pub fn get_perf_mode(&mut self) -> (r: Result<(PerfMode, FanMode), String>)
        ensures
            final(self)@ == old(self)@.after(Op::GetPerfMode),
            told(r) == old(self)@.modes(),
    {
        match self.ask(Op::GetPerfMode) {
            Some(Ok(Value::Modes(perf, fan))) => Ok((*perf, *fan)),
            Some(Err(e)) => Err(e.clone()),
            _ => Err(unanswered()),
        }
    }

    /// Switches the performance mode.
    pub fn set_perf_mode(&mut self, mode: PerfMode) -> (r: Result<(), String>)
        ensures
            final(self)@ == old(self)@.after(Op::SetPerfMode(mode)),
            told(r) == old(self)@.done(Op::SetPerfMode(mode)),
    {
        self.order(Op::SetPerfMode(mode))
    }

    /// The configured fan speed.
    pub fn get_fan_rpm(&mut self) -> (r: Result<u16, String>)
        ensures
            final(self)@ == old(self)@.after(Op::GetFanRpm),
            told(r) == old(self)@.rpm(Op::GetFanRpm),
    {
        self.read_rpm(Op::GetFanRpm)
    }

    /// The measured fan speed.
    pub fn get_fan_actual_rpm(&mut self) -> (r: Result<u16, String>)
        ensures
            final(self)@ == old(self)@.after(Op::GetFanActualRpm),
            told(r) == old(self)@.rpm(Op::GetFanActualRpm),
    {
        self.read_rpm(Op::GetFanActualRpm)
    }

    /// Switches the fan mode.
    pub fn set_fan_mode(&mut self, mode: FanMode) -> (r: Result<(), String>)
        ensures
            final(self)@ == old(self)@.after(Op::SetFanMode(mode)),
            told(r) == old(self)@.done(Op::SetFanMode(mode)),
    {
        self.order(Op::SetFanMode(mode))
    }

    /// Configures the fan speed.
    pub fn set_fan_rpm(&mut self, rpm: u16) -> (r: Result<(), String>)
        ensures
            final(self)@ == old(self)@.after(Op::SetFanRpm(rpm)),
            told(r) == old(self)@.done(Op::SetFanRpm(rpm)),
    {
        self.order(Op::SetFanRpm(rpm))
    }

    /// The logo mode.
    pub fn get_logo_mode(&mut self) -> (r: Result<LogoMode, String>)
        ensures
            final(self)@ == old(self)@.after(Op::GetLogoMode),
            told(r) == old(self)@.logo(),
    {
        match self.ask(Op::GetLogoMode) {
            Some(Ok(Value::Logo(mode))) => Ok(*mode),
            Some(Err(e)) => Err(e.clone()),
            _ => Err(unanswered()),
        }
    }

    /// Switches the logo mode.
    pub fn set_logo_mode(&mut self, mode: LogoMode) -> (r: Result<(), String>)
        ensures
            final(self)@ == old(self)@.after(Op::SetLogoMode(mode)),
            told(r) == old(self)@.done(Op::SetLogoMode(mode)),
    {
        self.order(Op::SetLogoMode(mode))
    }

    /// The raw keyboard brightness.
    pub fn get_keyboard_brightness(&mut self) -> (r: Result<u8, String>)
        ensures
            final(self)@ == old(self)@.after(Op::GetKeyboardBrightness),
            told(r) == old(self)@.brightness(),
    {
        match self.ask(Op::GetKeyboardBrightness) {
            Some(Ok(Value::Brightness(level))) => Ok(*level),
            Some(Err(e)) => Err(e.clone()),
            _ => Err(unanswered()),
        }
    }

    /// Sets the raw keyboard brightness.
    pub fn set_keyboard_brightness(&mut self, level: u8) -> (r: Result<(), String>)
        ensures
            final(self)@ == old(self)@.after(Op::SetKeyboardBrightness(level)),
            told(r) == old(self)@.done(Op::SetKeyboardBrightness(level)),
    {
        self.order(Op::SetKeyboardBrightness(level))
    }

    /// The lights-always-on flag.
    pub fn get_lights_always_on(&mut self) -> (r: Result<LightsAlwaysOn, String>)
        ensures
            final(self)@ == old(self)@.after(Op::GetLightsAlwaysOn),
            told(r) == old(self)@.lights(),
    {
        match self.ask(Op::GetLightsAlwaysOn) {
            Some(Ok(Value::Lights(flag))) => Ok(*flag),
            Some(Err(e)) => Err(e.clone()),
            _ => Err(unanswered()),
        }
    }

    /// Sets the lights-always-on flag.
    pub fn set_lights_always_on(&mut self, flag: LightsAlwaysOn) -> (r: Result<(), String>)
        ensures
            final(self)@ == old(self)@.after(Op::SetLightsAlwaysOn(flag)),
            told(r) == old(self)@.done(Op::SetLightsAlwaysOn(flag)),
    {
        self.order(Op::SetLightsAlwaysOn(flag))
    }

    /// The battery-care flag.
    pub fn get_battery_care(&mut self) -> (r: Result<BatteryCare, String>)
        ensures
            final(self)@ == old(self)@.after(Op::GetBatteryCare),
            told(r) == old(self)@.care(),
    {
        match self.ask(Op::GetBatteryCare) {
            Some(Ok(Value::Care(flag))) => Ok(*flag),
            Some(Err(e)) => Err(e.clone()),
            _ => Err(unanswered()),
        }
    }

    /// Sets the battery-care flag.
    pub fn set_battery_care(&mut self, flag: BatteryCare) -> (r: Result<(), String>)
        ensures
            final(self)@ == old(self)@.after(Op::SetBatteryCare(flag)),
            told(r) == old(self)@.done(Op::SetBatteryCare(flag)),
    {
        self.order(Op::SetBatteryCare(flag))
    }

    /// Lets the hardware settle for `millis` milliseconds.
    pub fn settle(&mut self, millis: u64)
        ensures
            final(self)@ == old(self)@.after(Op::Settle(millis)),
    {
        let _ = self.ask(Op::Settle(millis));
    }
}

} // verus!
