//! Tables of the chip that come from its vendor: RX gain tables and synthesizer loop settings.
//! They are data of the board support, so the application hands them in.
use vstd::prelude::*;

use crate::units::OutOfRange;

verus! {

/// RX gain table for a range of carriers.
#[derive(Debug, Clone)]
pub struct GainTable {
    /// LMT and LPF gains separate
    pub split_table: bool,
    /// The table is for carriers above this one (Hz)
    pub start: u64,
    /// and up to this one (Hz)
    pub end: u64,
    /// Gain of each entry in dB
    pub abs_gain: Vec<i8>,
    /// The three words of each entry
    pub entries: Vec<[u8; 3]>,
}

impl GainTable {
    /// The chip has room for 128 entries.
    pub open spec fn wf(self) -> bool {
        &&& 1 <= self.abs_gain@.len() <= 128
        &&& 1 <= self.entries@.len() <= 128
    }

    /// Whether the table is the one for a carrier.
    pub open spec fn covers(self, split_table: bool, freq: u64) -> bool {
        self.split_table == split_table && self.start < freq <= self.end
    }
}

/// Synthesizer settings for VCO frequencies from `vco_mhz` on.
#[derive(Debug, Clone, Copy, PartialEq, Eq, Structural)]
pub struct SynthEntry {
    pub vco_mhz: u16,
    pub vco_output_level: u8,
    pub vco_varactor: u8,
    pub vco_bias_ref: u8,
    pub vco_bias_tcf: u8,
    pub vco_cal_offset: u8,
    pub vco_varactor_reference: u8,
    pub charge_pump_current: u8,
    pub lf_c2: u8,
    pub lf_c1: u8,
    pub lf_r1: u8,
    pub lf_c3: u8,
    pub lf_r3: u8,
}

impl SynthEntry {
    /// Every setting fits its register field.
    #[verifier::allow_in_spec]
    pub fn fits(&self) -> bool
        returns
            self.vco_output_level < 16 && self.vco_varactor < 16 && self.vco_bias_ref < 8
                && self.vco_bias_tcf < 4 && self.vco_cal_offset < 16 && self.vco_varactor_reference
                < 16 && self.charge_pump_current < 64 && self.lf_c2 < 16 && self.lf_c1 < 16
                && self.lf_r1 < 16 && self.lf_c3 < 16 && self.lf_r3 < 16,
    {
        self.vco_output_level < 16 && self.vco_varactor < 16 && self.vco_bias_ref < 8
            && self.vco_bias_tcf < 4 && self.vco_cal_offset < 16 && self.vco_varactor_reference < 16
            && self.charge_pump_current < 64 && self.lf_c2 < 16 && self.lf_c1 < 16 && self.lf_r1
            < 16 && self.lf_c3 < 16 && self.lf_r3 < 16
    }
}

/// Synthesizer settings for one range of reference clocks, VCO frequencies going down.
pub type SynthTable = Vec<SynthEntry>;

/// At least one entry, and every entry fits.
pub open spec fn synth_table_wf(table: Seq<SynthEntry>) -> bool {
    &&& table.len() >= 1
    &&& forall|i: int| 0 <= i < table.len() ==> (#[trigger] table[i]).fits()
}

/// The vendor's tables.
#[derive(Debug)]
pub struct ChipTables {
    gain: Vec<GainTable>,
    synth_fdd: [SynthTable; 3],
    synth_tdd: [SynthTable; 3],
}

impl ChipTables {
    #[verifier::type_invariant]
    spec fn wf(self) -> bool {
        &&& self.gain@.len() >= 1
        &&& forall|i: int| 0 <= i < self.gain@.len() ==> (#[trigger] self.gain@[i]).wf()
        &&& synth_table_wf(self.synth_fdd[0]@)
        &&& synth_table_wf(self.synth_fdd[1]@)
        &&& synth_table_wf(self.synth_fdd[2]@)
        &&& synth_table_wf(self.synth_tdd[0]@)
        &&& synth_table_wf(self.synth_tdd[1]@)
        &&& synth_table_wf(self.synth_tdd[2]@)
    }

    /// The gain tables.
    pub closed spec fn gain_tables(self) -> Seq<GainTable> {
        self.gain@
    }

    /// The gain table with this index. The first one stands in for an index past the end.
    pub open spec fn gain_table(self, index: usize) -> GainTable {
        if index < self.gain_tables().len() {
            self.gain_tables()[index as int]
        } else {
            self.gain_tables()[0]
        }
    }

    /// Synthesizer settings for a range of reference clocks (0, 1, 2, going up).
    pub closed spec fn synth_table(self, fdd: bool, range: int) -> Seq<SynthEntry> {
        if fdd {
            self.synth_fdd[range]@
        } else {
            self.synth_tdd[range]@
        }
    }

    /// First gain table for a carrier in Hz from index `from` on. The length if there is none.
    pub open spec fn first_cover(self, split_table: bool, freq: u64, from: int) -> int
        decreases self.gain_tables().len() - from,
    {
        if from >= self.gain_tables().len() {
            self.gain_tables().len() as int
        } else if self.gain_tables()[from].covers(split_table, freq) {
            from
        } else {
            self.first_cover(split_table, freq, from + 1)
        }
    }

    /// Index of the gain table for an RX carrier in Hz. The first table if nothing matches.
    pub open spec fn table_index(self, split_table: bool, freq: u64) -> int {
        let first = self.first_cover(split_table, freq, 0);
        if first < self.gain_tables().len() {
            first
        } else {
            0
        }
    }

    /// Takes the tables if every one of them fits the chip.
    pub fn new(
        gain: Vec<GainTable>,
        synth_fdd: [SynthTable; 3],
        synth_tdd: [SynthTable; 3],
    ) -> (r: Result<Self, OutOfRange>)
        ensures
            r is Ok <==> {
                &&& gain@.len() >= 1
                &&& forall|i: int| 0 <= i < gain@.len() ==> (#[trigger] gain@[i]).wf()
                &&& synth_table_wf(synth_fdd[0]@)
                &&& synth_table_wf(synth_fdd[1]@)
                &&& synth_table_wf(synth_fdd[2]@)
                &&& synth_table_wf(synth_tdd[0]@)
                &&& synth_table_wf(synth_tdd[1]@)
                &&& synth_table_wf(synth_tdd[2]@)
            },
            r matches Ok(tables) ==> {
                &&& tables.gain_tables() == gain@
                &&& forall|range: int|
                    0 <= range < 3 ==> {
                        &&& #[trigger] tables.synth_table(true, range) == synth_fdd[range]@
                        &&& tables.synth_table(false, range) == synth_tdd[range]@
                    }
            },
    {
        if gain.len() == 0 {
            return Err(OutOfRange);
        }
        let mut i: usize = 0;
        while i < gain.len()
            invariant
                i <= gain@.len(),
                forall|k: int| 0 <= k < i ==> (#[trigger] gain@[k]).wf(),
            decreases gain@.len() - i,
        {
            let abs_gain: usize = gain[i].abs_gain.len();
            let entries: usize = gain[i].entries.len();
            if abs_gain < 1 || abs_gain > 128 || entries < 1 || entries > 128 {
                assert(!gain@[i as int].wf());
                return Err(OutOfRange);
            }
            i = i + 1;
        }
        if !synth_table_fits(&synth_fdd[0]) || !synth_table_fits(&synth_fdd[1])
            || !synth_table_fits(&synth_fdd[2]) || !synth_table_fits(&synth_tdd[0])
            || !synth_table_fits(&synth_tdd[1]) || !synth_table_fits(&synth_tdd[2]) {
            return Err(OutOfRange);
        }
        Ok(ChipTables { gain, synth_fdd, synth_tdd })
    }

    /// Index of the gain table for an RX carrier in Hz.
    pub fn gain_table_index(&self, split_table: bool, freq: u64) -> (index: usize)
        ensures
            index == self.table_index(split_table, freq),
            index < self.gain_tables().len(),
    {
        proof {
            use_type_invariant(self);
        }
        let mut i: usize = 0;
        while i < self.gain.len()
            invariant
                i <= self.gain@.len(),
                self.gain@.len() >= 1,
                self.first_cover(split_table, freq, i as int) == self.first_cover(
                    split_table,
                    freq,
                    0,
                ),
            decreases self.gain@.len() - i,
        {
            let table = &self.gain[i];
            if table.split_table == split_table && table.start < freq && freq <= table.end {
                return i;
            }
            i = i + 1;
        }
        0
    }

    /// The gain table with this index.
    pub fn gain_table_at(&self, index: usize) -> (table: &GainTable)
        ensures
            *table == self.gain_table(index),
            table.wf(),
    {
        proof {
            use_type_invariant(self);
        }
        if index < self.gain.len() {
            &self.gain[index]
        } else {
            &self.gain[0]
        }
    }

    /// Settings for a VCO frequency in MHz: the first entry that starts at or below it, or else
    /// the last one.
    pub open spec fn synth_entry(self, fdd: bool, range: int, vco_mhz: u64) -> SynthEntry {
        let table = self.synth_table(fdd, range);
        table[first_entry(table, vco_mhz, 0)]
    }

    /// Settings for a VCO frequency in MHz.
    pub fn synth_entry_for(&self, fdd: bool, range: usize, vco_mhz: u64) -> (entry: SynthEntry)
        requires
            range < 3,
        ensures
            entry == self.synth_entry(fdd, range as int, vco_mhz),
            entry.fits(),
    {
        proof {
            use_type_invariant(self);
        }
        let table: &SynthTable = if fdd {
            &self.synth_fdd[range]
        } else {
            &self.synth_tdd[range]
        };
        assert(synth_table_wf(table@));
        let mut i: usize = 0;
        while i < table.len() - 1 && table[i].vco_mhz as u64 > vco_mhz
            invariant
                i < table@.len(),
                first_entry(table@, vco_mhz, i as int) == first_entry(table@, vco_mhz, 0),
            decreases table@.len() - i,
        {
            i = i + 1;
        }
        table[i]
    }
}

/// First entry from `from` on that starts at or below `vco_mhz`, or else the last one.
pub open spec fn first_entry(table: Seq<SynthEntry>, vco_mhz: u64, from: int) -> int
    decreases table.len() - from,
{
    if from + 1 >= table.len() {
        from
    } else if table[from].vco_mhz <= vco_mhz {
        from
    } else {
        first_entry(table, vco_mhz, from + 1)
    }
}

fn synth_table_fits(table: &SynthTable) -> (b: bool)
    ensures
        b == synth_table_wf(table@),
{
    if table.len() == 0 {
        return false;
    }
    let mut i: usize = 0;
    while i < table.len()
        invariant
            i <= table@.len(),
            forall|k: int| 0 <= k < i ==> (#[trigger] table@[k]).fits(),
        decreases table@.len() - i,
    {
        if !table[i].fits() {
            return false;
        }
        i = i + 1;
    }
    true
}

} // verus!
