//! Driver of the chained pair of 8259 interrupt controllers.
//!
//! The driver owns the configuration of the pair and decides which port
//! writes initialise it and which acknowledge an interrupt. The caller
//! issues the writes in the order given.

use vstd::prelude::*;
use crate::machine::{PortValue, PortWrite};

verus! {

/// Number of vectors that the architecture reserves for exceptions.
pub const RESERVED_VECTORS: u8 = 32;

/// Number of interrupt lines of one controller.
pub const LINES_PER_CONTROLLER: u8 = 8;

/// Vector offset of the primary controller.
pub const PIC_1_OFFSET: u8 = 32;

/// Vector offset of the secondary controller.
pub const PIC_2_OFFSET: u8 = 40;

/// Command port of the primary controller.
pub const PRIMARY_COMMAND_PORT: u16 = 0x20;

/// Data port of the primary controller.
pub const PRIMARY_DATA_PORT: u16 = 0x21;

/// Command port of the secondary controller.
pub const SECONDARY_COMMAND_PORT: u16 = 0xa0;

/// Data port of the secondary controller.
pub const SECONDARY_DATA_PORT: u16 = 0xa1;

/// Command that starts the initialisation sequence.
pub const CMD_INIT: u8 = 0x11;

/// Command that signals the end of an interrupt.
pub const CMD_END_OF_INTERRUPT: u8 = 0x20;

/// Tells the primary controller that the secondary sits on its line 2.
pub const CASCADE_PRIMARY: u8 = 4;

/// Tells the secondary controller its cascade identity, 2.
pub const CASCADE_SECONDARY: u8 = 2;

/// Mode byte for 8086/88 operation.
pub const MODE_8086: u8 = 0x01;

/// Lines of the primary controller that the kernel handles: the timer on
/// line 0 and the keyboard on line 1, one bit each.
pub const HANDLED_PRIMARY_LINES: u8 = 0b0000_0011;

/// Lines of the secondary controller that the kernel handles: none.
pub const HANDLED_SECONDARY_LINES: u8 = 0;

/// One controller of the pair.
#[derive(Debug, Clone, Copy, PartialEq, Eq, Structural)]
pub struct Pic {
    /// Vector of the controller's line 0.
    pub offset: u8,
    pub command_port: u16,
    pub data_port: u16,
}

impl Pic {
    /// Whether `vector` belongs to one of the controller's eight lines.
    pub open spec fn spec_handles_interrupt(&self, vector: u8) -> bool {
        self.offset <= vector && vector < self.offset + LINES_PER_CONTROLLER
    }

    /// Whether `vector` belongs to one of the controller's eight lines.
    #[verifier::when_used_as_spec(spec_handles_interrupt)]
    pub fn handles_interrupt(&self, vector: u8) -> (yes: bool)
        ensures
            yes == self.spec_handles_interrupt(vector),
    {
        self.offset <= vector && vector - self.offset < LINES_PER_CONTROLLER
    }

    /// The write that tells the controller that an interrupt was served.
    pub open spec fn end_of_interrupt_write(&self) -> PortWrite {
        PortWrite { port: self.command_port, value: PortValue::Byte(CMD_END_OF_INTERRUPT) }
    }
}

/// Whether two vector offsets are fit for the pair: neither range of
/// eight vectors reaches into the reserved exception vectors or past the
/// last vector, and the two ranges do not overlap.
pub open spec fn offsets_valid(primary: u8, secondary: u8) -> bool {
    &&& primary >= RESERVED_VECTORS
    &&& secondary >= RESERVED_VECTORS
    &&& primary + LINES_PER_CONTROLLER <= 256
    &&& secondary + LINES_PER_CONTROLLER <= 256
    &&& (primary + LINES_PER_CONTROLLER <= secondary || secondary + LINES_PER_CONTROLLER
        <= primary)
}

/// The mask to write back for a controller: the mask that was saved, with
/// the handled lines unmasked.
pub open spec fn restored_mask(saved: u8, handled: u8) -> u8 {
    saved & !handled
}

/// Whether `line` of a controller is masked under `mask`.
pub open spec fn is_masked(mask: u8, line: u8) -> bool
    recommends
        line < 8,
{
    mask & (1u8 << line) != 0
}

/// The pair of controllers, the secondary cascaded through the primary.
#[derive(Debug, Clone, Copy, PartialEq, Eq, Structural)]
pub struct ChainedPics {
    primary: Pic,
    secondary: Pic,
}

impl ChainedPics {
    /// The primary controller.
    pub closed spec fn primary(&self) -> Pic {
        self.primary
    }

    /// The secondary controller.
    pub closed spec fn secondary(&self) -> Pic {
        self.secondary
    }

    /// The pair is well formed: the controllers sit on their ports, and
    /// their vector offsets are valid. This holds of every pair that a
    /// program holds.
    #[verifier::type_invariant]
    pub open spec fn wf(&self) -> bool {
        &&& self.primary().command_port == PRIMARY_COMMAND_PORT
        &&& self.primary().data_port == PRIMARY_DATA_PORT
        &&& self.secondary().command_port == SECONDARY_COMMAND_PORT
        &&& self.secondary().data_port == SECONDARY_DATA_PORT
        &&& offsets_valid(self.primary().offset, self.secondary().offset)
    }

    /// Whether `vector` belongs to a line of either controller.
    pub open spec fn spec_handles_interrupt(&self, vector: u8) -> bool {
        self.primary().handles_interrupt(vector) || self.secondary().handles_interrupt(vector)
    }

    /// The hardware line, 0 to 15, that `vector` belongs to.
    pub open spec fn spec_line_of(&self, vector: u8) -> Option<u8> {
        if self.primary().handles_interrupt(vector) {
            Some((vector - self.primary().offset) as u8)
        } else if self.secondary().handles_interrupt(vector) {
            Some((vector - self.secondary().offset + LINES_PER_CONTROLLER) as u8)
        } else {
            None
        }
    }

    /// The vector on which hardware line `line` arrives.
    pub open spec fn spec_vector_of(&self, line: u8) -> Option<u8> {
        if line < LINES_PER_CONTROLLER {
            Some((self.primary().offset + line) as u8)
        } else if line < 2 * LINES_PER_CONTROLLER {
            Some((self.secondary().offset + (line - LINES_PER_CONTROLLER)) as u8)
        } else {
            None
        }
    }

    /// The writes that initialise the pair, given the masks that the
    /// controllers held before.
    pub open spec fn initialize_writes(&self, saved_masks: (u8, u8)) -> Seq<PortWrite> {
        seq![
            PortWrite { port: self.primary().command_port, value: PortValue::Byte(CMD_INIT) },
            PortWrite { port: self.secondary().command_port, value: PortValue::Byte(CMD_INIT) },
            PortWrite {
                port: self.primary().data_port,
                value: PortValue::Byte(self.primary().offset),
            },
            PortWrite {
                port: self.secondary().data_port,
                value: PortValue::Byte(self.secondary().offset),
            },
            PortWrite { port: self.primary().data_port, value: PortValue::Byte(CASCADE_PRIMARY) },
            PortWrite {
                port: self.secondary().data_port,
                value: PortValue::Byte(CASCADE_SECONDARY),
            },
            PortWrite { port: self.primary().data_port, value: PortValue::Byte(MODE_8086) },
            PortWrite { port: self.secondary().data_port, value: PortValue::Byte(MODE_8086) },
            PortWrite {
                port: self.primary().data_port,
                value: PortValue::Byte(restored_mask(saved_masks.0, HANDLED_PRIMARY_LINES)),
            },
            PortWrite {
                port: self.secondary().data_port,
                value: PortValue::Byte(restored_mask(saved_masks.1, HANDLED_SECONDARY_LINES)),
            },
        ]
    }

    /// The writes that acknowledge an interrupt on hardware line `line`:
    /// the end-of-interrupt command to the secondary controller if the
    /// line is one of its own, then to the primary in either case. No
    /// write for a line that the pair does not have.
    pub open spec fn acknowledge_writes(&self, line: u8) -> Seq<PortWrite> {
        if line < LINES_PER_CONTROLLER {
            seq![self.primary().end_of_interrupt_write()]
        } else if line < 2 * LINES_PER_CONTROLLER {
            seq![self.secondary().end_of_interrupt_write(), self.primary().end_of_interrupt_write()]
        } else {
            Seq::empty()
        }
    }

    /// Whether `primary` and `secondary` are valid vector offsets for the
    /// pair.
    pub fn check_offsets(primary: u8, secondary: u8) -> (valid: bool)
        ensures
            valid == offsets_valid(primary, secondary),
    {
        primary >= RESERVED_VECTORS && secondary >= RESERVED_VECTORS && primary <= 248 && secondary
            <= 248 && (secondary >= primary && secondary - primary >= LINES_PER_CONTROLLER
            || primary >= secondary && primary - secondary >= LINES_PER_CONTROLLER)
    }

    /// The pair with the given vector offsets, if the offsets are valid.
    pub fn new(primary_offset: u8, secondary_offset: u8) -> (pics: Option<ChainedPics>)
        ensures
            pics is Some <==> offsets_valid(primary_offset, secondary_offset),
            pics matches Some(p) ==> {
                &&& p.wf()
                &&& p.primary().offset == primary_offset
                &&& p.secondary().offset == secondary_offset
            },
    {
        if Self::check_offsets(primary_offset, secondary_offset) {
            Some(
                ChainedPics {
                    primary: Pic {
                        offset: primary_offset,
                        command_port: PRIMARY_COMMAND_PORT,
                        data_port: PRIMARY_DATA_PORT,
                    },
                    secondary: Pic {
                        offset: secondary_offset,
                        command_port: SECONDARY_COMMAND_PORT,
                        data_port: SECONDARY_DATA_PORT,
                    },
                },
            )
        } else {
            None
        }
    }

    /// The pair as the kernel uses it: the primary controller right after
    /// the reserved vectors, the secondary right after the primary.
    pub fn standard() -> (pics: ChainedPics)
        ensures
            pics.wf(),
            pics.primary().offset == PIC_1_OFFSET,
            pics.secondary().offset == PIC_2_OFFSET,
    {
        ChainedPics {
            primary: Pic {
                offset: PIC_1_OFFSET,
                command_port: PRIMARY_COMMAND_PORT,
                data_port: PRIMARY_DATA_PORT,
            },
            secondary: Pic {
                offset: PIC_2_OFFSET,
                command_port: SECONDARY_COMMAND_PORT,
                data_port: SECONDARY_DATA_PORT,
            },
        }
    }

    /// The primary controller.
    pub fn primary_pic(&self) -> (pic: Pic)
        ensures
            pic == self.primary(),
    {
        self.primary
    }

    /// The secondary controller.
    pub fn secondary_pic(&self) -> (pic: Pic)
        ensures
            pic == self.secondary(),
    {
        self.secondary
    }

    /// Whether `vector` belongs to a line of either controller.
    #[verifier::when_used_as_spec(spec_handles_interrupt)]
    pub fn handles_interrupt(&self, vector: u8) -> (yes: bool)
        ensures
            yes == self.spec_handles_interrupt(vector),
    {
        self.primary.handles_interrupt(vector) || self.secondary.handles_interrupt(vector)
    }

    /// The hardware line, 0 to 15, that `vector` belongs to, if any.
    #[verifier::when_used_as_spec(spec_line_of)]
    pub fn line_of(&self, vector: u8) -> (line: Option<u8>)
        ensures
            line == self.spec_line_of(vector),
    {
        proof {
            use_type_invariant(self);
        }
        if self.primary.handles_interrupt(vector) {
            Some(vector - self.primary.offset)
        } else if self.secondary.handles_interrupt(vector) {
            Some(vector - self.secondary.offset + LINES_PER_CONTROLLER)
        } else {
            None
        }
    }

    /// The vector on which hardware line `line` arrives, if the pair has
    /// such a line.
    #[verifier::when_used_as_spec(spec_vector_of)]
    pub fn vector_of(&self, line: u8) -> (vector: Option<u8>)
        ensures
            vector == self.spec_vector_of(line),
    {
        proof {
            use_type_invariant(self);
        }
        if line < LINES_PER_CONTROLLER {
            Some(self.primary.offset + line)
        } else if line < 2 * LINES_PER_CONTROLLER {
            Some(self.secondary.offset + (line - LINES_PER_CONTROLLER))
        } else {
            None
        }
    }

    /// Initialises the pair: the initialisation command to both
    /// controllers, then their vector offsets, the cascade wiring and the
    /// 8086/88 mode, and last the masks. The masks are those saved before,
    /// with the lines that the kernel handles unmasked.
    pub fn initialize(&self, saved_masks: (u8, u8)) -> (writes: Vec<PortWrite>)
        ensures
            writes@ == self.initialize_writes(saved_masks),
    {
        let mut writes: Vec<PortWrite> = Vec::new();
        writes.push(PortWrite::byte(self.primary.command_port, CMD_INIT));
        writes.push(PortWrite::byte(self.secondary.command_port, CMD_INIT));
        writes.push(PortWrite::byte(self.primary.data_port, self.primary.offset));
        writes.push(PortWrite::byte(self.secondary.data_port, self.secondary.offset));
        writes.push(PortWrite::byte(self.primary.data_port, CASCADE_PRIMARY));
        writes.push(PortWrite::byte(self.secondary.data_port, CASCADE_SECONDARY));
        writes.push(PortWrite::byte(self.primary.data_port, MODE_8086));
        writes.push(PortWrite::byte(self.secondary.data_port, MODE_8086));
        writes.push(PortWrite::byte(self.primary.data_port, saved_masks.0 & !HANDLED_PRIMARY_LINES));
        writes.push(
            PortWrite::byte(self.secondary.data_port, saved_masks.1 & !HANDLED_SECONDARY_LINES),
        );
        assert(writes@ =~= self.initialize_writes(saved_masks));
        writes
    }

    /// Acknowledges an interrupt on hardware line `line`.
    pub fn acknowledge(&self, line: u8) -> (writes: Vec<PortWrite>)
        ensures
            writes@ == self.acknowledge_writes(line),
    {
        let mut writes: Vec<PortWrite> = Vec::new();
        if line < 2 * LINES_PER_CONTROLLER {
            if line >= LINES_PER_CONTROLLER {
                writes.push(PortWrite::byte(self.secondary.command_port, CMD_END_OF_INTERRUPT));
            }
            writes.push(PortWrite::byte(self.primary.command_port, CMD_END_OF_INTERRUPT));
        }
        assert(writes@ =~= self.acknowledge_writes(line));
        writes
    }
}

/// The vectors of the two controllers do not overlap each other or the
/// vectors reserved for exceptions.
pub proof fn lemma_vectors_do_not_overlap(pics: ChainedPics, vector: u8)
    requires
        pics.wf(),
    ensures
        !(pics.primary().handles_interrupt(vector) && pics.secondary().handles_interrupt(vector)),
        pics.handles_interrupt(vector) ==> vector >= RESERVED_VECTORS,
{
}

/// The masks that the initialisation writes last leave the handled lines
/// of the primary controller unmasked, and every other line of either
/// controller as it was.
pub proof fn lemma_initialize_unmasks_handled_lines(
    pics: ChainedPics,
    saved_masks: (u8, u8),
    line: u8,
)
    requires
        pics.wf(),
        line < LINES_PER_CONTROLLER,
    ensures
        ({
            let writes = pics.initialize_writes(saved_masks);
            let handled = HANDLED_PRIMARY_LINES & (1u8 << line) != 0;
            &&& writes.len() == 10
            &&& writes[8].port == PRIMARY_DATA_PORT
            &&& writes[9].port == SECONDARY_DATA_PORT
            &&& writes[8].value matches PortValue::Byte(mask) && (if handled {
                !is_masked(mask, line)
            } else {
                is_masked(mask, line) == is_masked(saved_masks.0, line)
            })
            &&& writes[9].value matches PortValue::Byte(mask) && is_masked(mask, line)
                == is_masked(saved_masks.1, line)
        }),
        HANDLED_PRIMARY_LINES & (1u8 << 0u8) != 0,
        HANDLED_PRIMARY_LINES & (1u8 << 1u8) != 0,
{
    let first = saved_masks.0;
    let second = saved_masks.1;
    assert(0b0000_0011u8 & (1u8 << line) != 0 ==> (first & !0b0000_0011u8) & (1u8 << line) == 0)
        by (bit_vector)
        requires
            line < 8,
    ;
    assert(0b0000_0011u8 & (1u8 << line) == 0 ==> (first & !0b0000_0011u8) & (1u8 << line)
        == first & (1u8 << line)) by (bit_vector)
        requires
            line < 8,
    ;
    assert((second & !0u8) & (1u8 << line) == second & (1u8 << line)) by (bit_vector)
        requires
            line < 8,
    ;
    assert(0b0000_0011u8 & (1u8 << 0u8) != 0) by (bit_vector);
    assert(0b0000_0011u8 & (1u8 << 1u8) != 0) by (bit_vector);
}

/// Which controllers wait to be told that an interrupt was served. A
/// controller that has delivered an interrupt holds back every further
/// one until it receives the end-of-interrupt command.
#[derive(Debug, Clone, Copy, PartialEq, Eq, Structural)]
pub struct Waiting {
    pub primary: bool,
    pub secondary: bool,
}

impl ChainedPics {
    /// Whether the pair can deliver an interrupt on `line`: the primary
    /// controller does not wait, and for a line of the secondary, which
    /// reaches the processor through the primary, neither waits.
    pub open spec fn deliverable(&self, waiting: Waiting, line: u8) -> bool {
        if line < LINES_PER_CONTROLLER {
            !waiting.primary
        } else if line < 2 * LINES_PER_CONTROLLER {
            !waiting.primary && !waiting.secondary
        } else {
            false
        }
    }

    /// Who waits once the pair has delivered an interrupt on `line`.
    pub open spec fn after_delivery(&self, waiting: Waiting, line: u8) -> Waiting {
        if line < LINES_PER_CONTROLLER {
            Waiting { primary: true, secondary: waiting.secondary }
        } else if line < 2 * LINES_PER_CONTROLLER {
            Waiting { primary: true, secondary: true }
        } else {
            waiting
        }
    }

    /// Who waits once `write` has been issued.
    pub open spec fn after_write(&self, waiting: Waiting, write: PortWrite) -> Waiting {
        if write == self.primary().end_of_interrupt_write() {
            Waiting { primary: false, secondary: waiting.secondary }
        } else if write == self.secondary().end_of_interrupt_write() {
            Waiting { primary: waiting.primary, secondary: false }
        } else {
            waiting
        }
    }

    /// Who waits once `writes` have been issued in order.
    pub open spec fn after_writes(&self, waiting: Waiting, writes: Seq<PortWrite>) -> Waiting
        decreases writes.len(),
    {
        if writes.len() == 0 {
            waiting
        } else {
            self.after_write(self.after_writes(waiting, writes.drop_last()), writes.last())
        }
    }
}

/// An interrupt that was acknowledged does not stand in the way of the
/// next: after the writes of `acknowledge`, the line can be delivered
/// again. Without them it cannot.
pub proof fn lemma_acknowledged_line_is_deliverable(pics: ChainedPics, waiting: Waiting, line: u8)
    requires
        pics.wf(),
        pics.deliverable(waiting, line),
    ensures
        !pics.deliverable(pics.after_delivery(waiting, line), line),
        pics.deliverable(
            pics.after_writes(pics.after_delivery(waiting, line), pics.acknowledge_writes(line)),
            line,
        ),
{
    let served = pics.after_delivery(waiting, line);
    let writes = pics.acknowledge_writes(line);
    if line < LINES_PER_CONTROLLER {
        assert(writes.drop_last() =~= Seq::<PortWrite>::empty());
        assert(pics.after_writes(served, writes.drop_last()) == served);
    } else {
        let first = seq![pics.secondary().end_of_interrupt_write()];
        assert(writes.drop_last() =~= first);
        assert(first.drop_last() =~= Seq::<PortWrite>::empty());
        assert(pics.after_writes(served, first.drop_last()) == served);
        assert(pics.after_writes(served, first) == pics.after_write(served, first.last()));
    }
}

} // verus!
