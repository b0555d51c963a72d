//! The trait users implement to receive what `libdummy` delivers.
use vstd::prelude::*;
use vstd::string::StringExecFns;

verus! {

/// Receives the data that arrives on a destination registered with
/// [`crate::registration::UserSpaceWrapper`]: `src` is the destination's
/// name and `arg` the bytes sent to it.
///
/// A handler may declare, through `obeys_delivery_log`, that it keeps a log of
/// what it received (`received`). Such a handler is held by Verus to appending
/// exactly one `(src, arg)` entry per call. Nothing is claimed of a handler
/// that does not declare it, which is what every handler written outside
/// Verus is (the declaration is a spec function, erased from compiled code).
pub trait OnSend {
    /// Whether this handler keeps the log `received` of its deliveries; a
    /// handler that says nothing does not.
    open spec fn obeys_delivery_log(&self) -> bool {
        false
    }

    /// The deliveries this handler has received, oldest first (none known of a
    /// handler that keeps no log).
    open spec fn received(&self) -> Seq<(Seq<char>, Seq<u8>)> {
        Seq::empty()
    }

    fn on_send(&mut self, src: &str, arg: &[u8])
        ensures
            old(self).obeys_delivery_log() ==> final(self).obeys_delivery_log()
                && final(self).received() == old(self).received().push((src@, arg@)),
    ;
}

/// A handler that keeps every delivery it receives, in order.
pub struct DeliveryLog {
    pub deliveries: Vec<(String, Vec<u8>)>,
}

impl DeliveryLog {
    /// A log with nothing received yet.
    pub fn new() -> (log: Self)
        ensures
            log.received() == Seq::<(Seq<char>, Seq<u8>)>::empty(),
    {
        let log = DeliveryLog { deliveries: Vec::new() };
        assert(log.received() =~= Seq::<(Seq<char>, Seq<u8>)>::empty());
        log
    }
}

impl OnSend for DeliveryLog {
    open spec fn obeys_delivery_log(&self) -> bool {
        true
    }

    open spec fn received(&self) -> Seq<(Seq<char>, Seq<u8>)> {
        self.deliveries@.map_values(|d: (String, Vec<u8>)| (d.0@, d.1@))
    }

    fn on_send(&mut self, src: &str, arg: &[u8]) {
        let name = String::from_str(src);
        let data = vstd::slice::slice_to_vec(arg);
        self.deliveries.push((name, data));
        assert(self.received() =~= old(self).received().push((src@, arg@)));
    }
}

} // verus!
