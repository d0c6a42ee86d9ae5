use vstd::prelude::*;

verus! {

/// The container's lifecycle.
#[derive(Clone, Copy, Debug, PartialEq, Eq, Structural)]
pub enum MuxStage {
    /// The container is open but its header is not written yet.
    Opened,
    /// The header is written: packets may be recorded.
    HeaderWritten,
    /// The trailer is written: the file is complete and closed to packets.
    TrailerWritten,
}

/// Tracks the container lifecycle so that every drained packet is recorded
/// exactly once, in arrival order, after the header and before the trailer.
/// The writing itself happens outside; the muxer decides what is legal.
pub struct Muxer {
    pub stage: MuxStage,
    pub packets: u64,
}

impl Muxer {
    /// A packet may be recorded only between header and trailer.
    pub open spec fn can_accept_packet(self) -> bool {
        self.stage is HeaderWritten
    }

    /// A muxer for a freshly opened container.
    pub fn open() -> (m: Self)
        ensures
            m.stage is Opened,
            m.packets == 0,
    {
        Muxer { stage: MuxStage::Opened, packets: 0 }
    }

    /// Records that the container header was written.
    pub fn write_header(&mut self)
        requires
            old(self).stage is Opened,
        ensures
            final(self).stage is HeaderWritten,
            final(self).packets == old(self).packets,
            final(self).can_accept_packet(),
    {
        self.stage = MuxStage::HeaderWritten;
    }

    /// Records one packet, written in the order the encoder emitted it.
    pub fn record_packet(&mut self)
        requires
            old(self).can_accept_packet(),
            old(self).packets < u64::MAX,
        ensures
            final(self).stage == old(self).stage,
            final(self).packets == old(self).packets + 1,
    {
        self.packets = self.packets + 1;
    }

    /// Records that the container trailer was written; no packet can follow.
    pub fn write_trailer(&mut self)
        requires
            old(self).stage is HeaderWritten,
        ensures
            final(self).stage is TrailerWritten,
            final(self).packets == old(self).packets,
            !final(self).can_accept_packet(),
    {
        self.stage = MuxStage::TrailerWritten;
    }
}

/// Law: no packet is written before the container header — a muxer whose
/// header is still unwritten accepts no packet.
pub proof fn lemma_no_packet_before_header(m: Muxer)
    requires
        m.stage is Opened,
    ensures
        !m.can_accept_packet(),
{
}

/// Law: no packet is written after the container trailer.
pub proof fn lemma_no_packet_after_trailer(m: Muxer)
    requires
        m.stage is TrailerWritten,
    ensures
        !m.can_accept_packet(),
{
}

} // verus!
