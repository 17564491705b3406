//! Decoding a stream of bytes into items, one byte at a time, and encoding
//! items back into bytes.
//!
//! One thing is carried from item to item while a stream is decoded: the
//! usage page item seen last. Every item for a usage that follows gets a
//! copy of it. Nothing else is carried: a push or a pop item is recognised,
//! and saves and restores nothing.

use crate::error::HidError;
use crate::global_items::UsagePage;
use crate::privates::{__data_size, data_size, is_frame};
use crate::report_item::{decoded, ItemView, ReportItem};
use vstd::prelude::*;
use vstd::std_specs::iter::IteratorSpec;

verus! {

/// The usage page that holds behind `item`, where `page` held in front of
/// it: the item itself if it is a usage page item, else `page`.
pub open spec fn page_after(page: Option<Seq<u8>>, item: ItemView) -> Option<Seq<u8>> {
    if item.kind is UsagePage {
        Some(item.bytes)
    } else {
        page
    }
}

/// `item` as it leaves the decoder while `page` holds: an item for a usage
/// carries `page`, any other item is as it was.
pub open spec fn in_context(item: ItemView, page: Option<Seq<u8>>) -> ItemView {
    if item.names_usage() {
        ItemView { kind: item.kind, bytes: item.bytes, usage_page: page }
    } else {
        item
    }
}

/// What reading a stream yields: the items found, the position at which
/// reading stopped, and the usage page that holds there.
pub struct Scan {
    /// The items, in the order of the stream.
    pub items: Seq<ItemView>,
    /// The position behind the last whole item.
    pub stop: int,
    /// The usage page item seen last.
    pub page: Option<Seq<u8>>,
}

/// Read `bytes` from position `start` on, while `page` holds there.
///
/// Reading takes one item after the other: a prefix byte and the data bytes
/// that the prefix announces. It stops at the end of the stream, and also
/// in front of a prefix whose data the stream does not hold in full: what
/// is left of the stream there is no item and is passed over.
pub open spec fn scan(bytes: Seq<u8>, start: int, page: Option<Seq<u8>>) -> Scan
    decreases bytes.len() - start,
{
    if start < 0 || start >= bytes.len() {
        Scan { items: Seq::empty(), stop: start, page }
    } else {
        let end = start + 1 + data_size(bytes[start]);
        if end > bytes.len() {
            Scan { items: Seq::empty(), stop: start, page }
        } else {
            let item = in_context(decoded(bytes.subrange(start, end)), page);
            let rest = scan(bytes, end, page_after(page, item));
            Scan { items: seq![item] + rest.items, stop: rest.stop, page: rest.page }
        }
    }
}

/// The items of the stream `bytes`.
pub open spec fn parsed(bytes: Seq<u8>) -> Seq<ItemView> {
    scan(bytes, 0, None).items
}

/// Whether `bytes` is made of whole items only.
pub open spec fn is_whole(bytes: Seq<u8>) -> bool {
    scan(bytes, 0, None).stop == bytes.len()
}

/// The first `n` of `items` as bytes: their frames in a row.
pub open spec fn dumped_first(items: Seq<ItemView>, n: nat) -> Seq<u8>
    decreases n,
{
    if n == 0 {
        Seq::empty()
    } else {
        dumped_first(items, (n - 1) as nat) + items[n - 1].bytes
    }
}

/// `items` as bytes: their frames in a row.
pub open spec fn dumped(items: Seq<ItemView>) -> Seq<u8> {
    dumped_first(items, items.len())
}

/// The views of a list of items.
pub open spec fn item_views(items: Seq<ReportItem>) -> Seq<ItemView> {
    Seq::new(items.len(), |i: int| items[i]@)
}

/// Whether `result` is what strict decoding makes of `item`: the item
/// itself, or the error that holds its bytes where the item is of the
/// reserved kind.
pub open spec fn is_strict(result: Result<ReportItem, HidError>, item: ItemView) -> bool {
    match result {
        Ok(found) => item.kind !is Reserved && found@ == item,
        Err(HidError::ReservedItem(reserved)) => item.kind is Reserved && reserved@ == item.bytes,
        Err(_) => false,
    }
}

/// What a decoder holds between two bytes: the bytes of the item that it is
/// in the middle of, and the usage page item seen last.
pub struct DecoderView {
    /// The bytes taken in since the last whole item.
    pub pending: Seq<u8>,
    /// The usage page item seen last.
    pub usage_page: Option<Seq<u8>>,
}

/// What a decoder in the state `state` does with the next byte: where the
/// byte completes an item, the item leaves and nothing is pending; else the
/// byte is kept.
pub open spec fn step(state: DecoderView, byte: u8) -> (DecoderView, Option<ItemView>) {
    let frame = state.pending.push(byte);
    if is_frame(frame) {
        let item = in_context(decoded(frame), state.usage_page);
        (
            DecoderView { pending: Seq::empty(), usage_page: page_after(state.usage_page, item) },
            Some(item),
        )
    } else {
        (DecoderView { pending: frame, usage_page: state.usage_page }, None)
    }
}

/// The state of a decoder that has taken in `bytes` since it was made: what
/// follows the last whole item is pending.
pub open spec fn state_after(bytes: Seq<u8>) -> DecoderView {
    let read = scan(bytes, 0, None);
    DecoderView { pending: bytes.subrange(read.stop, bytes.len() as int), usage_page: read.page }
}

/// No item or the one item that a step hands out, as a list.
pub open spec fn emitted(item: Option<ItemView>) -> Seq<ItemView> {
    match item {
        Some(item) => seq![item],
        None => Seq::empty(),
    }
}

proof fn lemma_scan_extend(bytes: Seq<u8>, byte: u8, start: int, page: Option<Seq<u8>>)
    requires
        0 <= start <= bytes.len(),
    ensures
        ({
            let before = scan(bytes, start, page);
            let after = scan(bytes.push(byte), start, page);
            let pending = bytes.subrange(before.stop, bytes.len() as int);
            let next = step(DecoderView { pending, usage_page: before.page }, byte);
            &&& start <= before.stop <= bytes.len()
            &&& start <= after.stop <= bytes.len() + 1
            &&& after.items == before.items + emitted(next.1)
            &&& after.page == next.0.usage_page
            &&& bytes.push(byte).subrange(after.stop, bytes.len() as int + 1) == next.0.pending
        }),
    decreases bytes.len() - start,
{
    let longer = bytes.push(byte);
    let len = bytes.len() as int;
    if start == len {
        // Nothing is pending: the byte is a prefix.
        assert(bytes.subrange(start, len).push(byte) =~= seq![byte]);
        if data_size(byte) == 0 {
            let item = in_context(decoded(seq![byte]), page);
            assert(longer.subrange(start, start + 1) =~= seq![byte]);
            assert(scan(longer, start + 1, page_after(page, item)).items =~= Seq::<
                ItemView,
            >::empty());
        }
    } else {
        let end = start + 1 + data_size(bytes[start]);
        if end <= len {
            // A whole item stands at `start` in both streams.
            let item = in_context(decoded(bytes.subrange(start, end)), page);
            assert(longer.subrange(start, end) =~= bytes.subrange(start, end));
            lemma_scan_extend(bytes, byte, end, page_after(page, item));
        } else {
            // The item at `start` is pending, and the byte is one of its data bytes.
            let frame = bytes.subrange(start, len).push(byte);
            assert(frame =~= longer.subrange(start, len + 1));
            if end == len + 1 {
                let item = in_context(decoded(frame), page);
                assert(scan(longer, end, page_after(page, item)).items =~= Seq::<
                    ItemView,
                >::empty());
            }
        }
    }
}

/// Before the first byte of a stream nothing is pending and no usage page
/// is known.
pub proof fn lemma_state_at_start()
    ensures
        state_after(Seq::empty()) == (DecoderView { pending: Seq::empty(), usage_page: None }),
        parsed(Seq::empty()) == Seq::<ItemView>::empty(),
{
    assert(Seq::<u8>::empty().subrange(0, 0) =~= Seq::<u8>::empty());
}

/// Decoding goes byte by byte: the items of a stream that is one byte longer
/// are the items of the stream, and behind them what the decoder that has
/// taken in the stream hands out for that byte.
pub proof fn lemma_parsed_push(bytes: Seq<u8>, byte: u8)
    ensures
        parsed(bytes.push(byte)) == parsed(bytes) + emitted(step(state_after(bytes), byte).1),
        state_after(bytes.push(byte)) == step(state_after(bytes), byte).0,
{
    lemma_scan_extend(bytes, byte, 0, None);
}

proof fn lemma_dumped_first_behind(item: ItemView, rest: Seq<ItemView>, n: nat)
    requires
        n <= rest.len(),
    ensures
        dumped_first(seq![item] + rest, n + 1) == item.bytes + dumped_first(rest, n),
    decreases n,
{
    if n == 0 {
        assert(dumped_first(seq![item] + rest, 0) =~= Seq::<u8>::empty());
    } else {
        lemma_dumped_first_behind(item, rest, (n - 1) as nat);
    }
}

proof fn lemma_scan_dumped(bytes: Seq<u8>, start: int, page: Option<Seq<u8>>)
    requires
        0 <= start <= bytes.len(),
    ensures
        start <= scan(bytes, start, page).stop <= bytes.len(),
        dumped(scan(bytes, start, page).items) == bytes.subrange(
            start,
            scan(bytes, start, page).stop,
        ),
    decreases bytes.len() - start,
{
    if start < bytes.len() && start + 1 + data_size(bytes[start]) <= bytes.len() {
        let end = start + 1 + data_size(bytes[start]);
        let item = in_context(decoded(bytes.subrange(start, end)), page);
        let rest = scan(bytes, end, page_after(page, item));
        lemma_scan_dumped(bytes, end, page_after(page, item));
        lemma_dumped_first_behind(item, rest.items, rest.items.len());
    }
}

/// Decoding and then encoding gives the stream back, but for an unfinished
/// item at its end: a stream that is made of whole items comes back as it
/// was.
pub proof fn lemma_round_trip(bytes: Seq<u8>)
    ensures
        0 <= scan(bytes, 0, None).stop <= bytes.len(),
        dumped(parsed(bytes)) == bytes.take(scan(bytes, 0, None).stop),
        is_whole(bytes) ==> dumped(parsed(bytes)) == bytes,
{
    lemma_scan_dumped(bytes, 0, None);
}

/// Strict decoding and then encoding gives a stream back that is made of
/// whole items, where strict decoding found no error in it.
pub proof fn lemma_round_trip_strict(bytes: Seq<u8>, results: Seq<Result<ReportItem, HidError>>)
    requires
        is_whole(bytes),
        results.len() == parsed(bytes).len(),
        forall|i: int|
            0 <= i < results.len() ==> is_strict(#[trigger] results[i], parsed(bytes)[i]),
        forall|i: int| 0 <= i < results.len() ==> (#[trigger] results[i]) is Ok,
    ensures
        dumped(Seq::new(results.len(), |i: int| results[i]->Ok_0@)) == bytes,
{
    lemma_round_trip(bytes);
    assert(Seq::new(results.len(), |i: int| results[i]->Ok_0@) =~= parsed(bytes));
}

/// What pulling from a source of bytes comes to.
pub struct Pull {
    /// What the decoder holds afterwards.
    pub state: DecoderView,
    /// The item that was completed, if one was.
    pub item: Option<ItemView>,
    /// The bytes that are left in the source.
    pub rest: Seq<u8>,
}

/// What a decoder in the state `state` comes to when it pulls from a source
/// that holds `bytes`. It takes the bytes that its pending item lacks. Where
/// the source holds them, the item leaves, and the source is left with what
/// follows them. Where the source ends first, the source is used up and the
/// unfinished item is given up.
pub open spec fn pulled(state: DecoderView, bytes: Seq<u8>) -> Pull {
    let stream = state.pending + bytes;
    if stream.len() > 0 && stream.len() >= 1 + data_size(stream[0]) {
        let end = 1 + data_size(stream[0]) as int;
        let item = in_context(decoded(stream.take(end)), state.usage_page);
        Pull {
            state: DecoderView {
                pending: Seq::empty(),
                usage_page: page_after(state.usage_page, item),
            },
            item: Some(item),
            rest: stream.skip(end),
        }
    } else {
        Pull {
            state: DecoderView { pending: Seq::empty(), usage_page: state.usage_page },
            item: None,
            rest: Seq::empty(),
        }
    }
}

proof fn lemma_scan_shift(bytes: Seq<u8>, offset: int, start: int, page: Option<Seq<u8>>)
    requires
        0 <= offset,
        0 <= start,
        offset + start <= bytes.len(),
    ensures
        scan(bytes, offset + start, page).items == scan(bytes.skip(offset), start, page).items,
        scan(bytes, offset + start, page).stop == scan(bytes.skip(offset), start, page).stop
            + offset,
        scan(bytes, offset + start, page).page == scan(bytes.skip(offset), start, page).page,
    decreases bytes.len() - offset - start,
{
    let tail = bytes.skip(offset);
    if start < tail.len() {
        let end = start + 1 + data_size(tail[start]);
        if end <= tail.len() {
            let item = in_context(decoded(tail.subrange(start, end)), page);
            assert(bytes.subrange(offset + start, offset + end) =~= tail.subrange(start, end));
            lemma_scan_shift(bytes, offset, end, page_after(page, item));
        }
    }
}

/// The items that are pulled from a source one after the other are the
/// items of the stream that the source holds: the stream begins with the
/// item that a decoder with nothing pending pulls, if it pulls one, and goes
/// on with the items of what is left in the source.
pub proof fn lemma_pulled_is_parsed(page: Option<Seq<u8>>, bytes: Seq<u8>)
    ensures
        ({
            let pull = pulled(DecoderView { pending: Seq::empty(), usage_page: page }, bytes);
            let read = scan(bytes, 0, page);
            match pull.item {
                Some(item) => read.items == seq![item] + scan(
                    pull.rest,
                    0,
                    pull.state.usage_page,
                ).items,
                None => read.items == Seq::<ItemView>::empty(),
            }
        }),
{
    if bytes.len() > 0 && bytes.len() >= 1 + data_size(bytes[0]) {
        let end = 1 + data_size(bytes[0]) as int;
        let item = in_context(decoded(bytes.take(end)), page);
        lemma_scan_shift(bytes, end, 0, page_after(page, item));
    }
}

/// The bytes of a usage page item, where there is one.
pub open spec fn page_view(usage_page: Option<UsagePage>) -> Option<Seq<u8>> {
    match usage_page {
        Some(usage_page) => Some(usage_page@),
        None => None,
    }
}

/// A decoder that is fed one byte at a time and hands out an item whenever
/// a byte completes one.
///
/// It holds no more than the bytes of the item that it is in the middle of
/// and the usage page item seen last. A stream that ends in the middle of an
/// item leaves that item unfinished in the decoder: no item and no error
/// comes of it.
#[derive(Clone, Copy, Debug)]
pub struct Decoder {
    storage: [u8; 5],
    filled: usize,
    usage_page: Option<UsagePage>,
}

impl Decoder {
    #[verifier::type_invariant]
    spec fn is_waiting(self) -> bool {
        self.filled <= 4 && (self.filled > 0 ==> self.filled < 1 + data_size(self.storage[0]))
    }

    /// What the decoder holds: the bytes of the unfinished item and the
    /// usage page item seen last.
    pub closed spec fn view(&self) -> DecoderView {
        DecoderView {
            pending: self.storage@.take(self.filled as int),
            usage_page: page_view(self.usage_page),
        }
    }

    /// A decoder at the start of a stream: nothing is pending and no usage
    /// page is known.
    pub fn new() -> (decoder: Self)
        ensures
            decoder@ == (DecoderView { pending: Seq::empty(), usage_page: None }),
    {
        let decoder = Decoder { storage: [0; 5], filled: 0, usage_page: None };
        assert(decoder@.pending =~= Seq::<u8>::empty());
        decoder
    }

    /// Give up the item that the decoder is in the middle of, as at the end
    /// of a stream. The usage page stays.
    pub fn discard_pending(&mut self)
        ensures
            final(self)@ == (DecoderView {
                pending: Seq::empty(),
                usage_page: old(self)@.usage_page,
            }),
    {
        self.filled = 0;
        assert(self@.pending =~= Seq::<u8>::empty());
    }

    /// Take in one byte. Where it completes a frame, the bytes of the frame
    /// and their number are handed out.
    fn take(&mut self, byte: u8) -> (frame: Option<([u8; 5], usize)>)
        ensures
            is_frame(old(self)@.pending.push(byte)) ==> frame is Some && 1 <= frame->Some_0.1 <= 5
                && frame->Some_0.0@.take(frame->Some_0.1 as int) == old(self)@.pending.push(byte)
                && final(self)@.pending == Seq::<u8>::empty(),
            !is_frame(old(self)@.pending.push(byte)) ==> frame is None && final(self)@.pending
                == old(self)@.pending.push(byte),
            final(self)@.usage_page == old(self)@.usage_page,
    {
        proof {
            use_type_invariant(&*self);
        }
        let mut storage = self.storage;
        let filled = self.filled;
        storage[filled] = byte;
        if filled + 1 == 1 + __data_size(storage[0]) {
            self.filled = 0;
            Some((storage, filled + 1))
        } else {
            self.storage = storage;
            self.filled = filled + 1;
            None
        }
    }

    /// Take in bytes from `source` until one completes a frame, and hand out
    /// the bytes of the frame and their number. Where the source ends first,
    /// what is pending is given up.
    fn take_from<Source: Iterator<Item = u8>>(&mut self, source: &mut Source) -> (frame: Option<
        ([u8; 5], usize),
    >)
        ensures
            final(self)@.usage_page == old(self)@.usage_page,
            final(self)@.pending == Seq::<u8>::empty(),
            frame is Some ==> 1 <= frame->Some_0.1 <= 5 && is_frame(
                frame->Some_0.0@.take(frame->Some_0.1 as int),
            ),
            (*old(source)).obeys_prophetic_iter_laws() ==> {
                let stream = old(self)@.pending + (*old(source)).remaining();
                let end = 1 + data_size(stream[0]) as int;
                if stream.len() > 0 && stream.len() >= end {
                    &&& frame is Some
                    &&& frame->Some_0.0@.take(frame->Some_0.1 as int) == stream.take(end)
                    &&& (*final(source)).remaining() == stream.skip(end)
                } else {
                    &&& frame is None
                    &&& (*final(source)).remaining() == Seq::<u8>::empty()
                }
            },
    {
        let ghost stream = self@.pending + (*source).remaining();
        loop
            invariant
                (*source).obeys_prophetic_iter_laws() == (*old(source)).obeys_prophetic_iter_laws(),
                (*source).obeys_prophetic_iter_laws() ==> self@.pending + (*source).remaining()
                    == stream,
                stream == old(self)@.pending + (*old(source)).remaining(),
                self@.usage_page == old(self)@.usage_page,
            decreases 5 - self@.pending.len(),
        {
            proof {
                use_type_invariant(&*self);
            }
            match source.next() {
                Some(byte) => {
                    if let Some(frame) = self.take(byte) {
                        return Some(frame);
                    }
                },
                None => {
                    self.discard_pending();
                    return None;
                },
            }
        }
    }

    /// Let a decoded item pass: a usage page item is remembered, and an item
    /// for a usage gets the usage page item that is remembered.
    fn pass(&mut self, item: ReportItem) -> (passed: ReportItem)
        requires
            item@.usage_page is None,
        ensures
            passed@ == in_context(item@, old(self)@.usage_page),
            final(self)@.usage_page == page_after(old(self)@.usage_page, passed@),
            final(self)@.pending == old(self)@.pending,
    {
        proof {
            use_type_invariant(&*self);
        }
        if let ReportItem::UsagePage(usage_page) = item {
            self.usage_page = Some(usage_page);
        }
        match self.usage_page {
            Some(usage_page) => match item {
                ReportItem::Usage(mut usage) => {
                    usage.set_usage_page(usage_page);
                    ReportItem::Usage(usage)
                },
                ReportItem::UsageMinimum(mut usage_minimum) => {
                    usage_minimum.set_usage_page(usage_page);
                    ReportItem::UsageMinimum(usage_minimum)
                },
                ReportItem::UsageMaximum(mut usage_maximum) => {
                    usage_maximum.set_usage_page(usage_page);
                    ReportItem::UsageMaximum(usage_maximum)
                },
                other => other,
            },
            None => item,
        }
    }

    /// Take in one byte of the stream. Where the byte completes an item, the
    /// item is handed out; an item that the catalog does not know is handed
    /// out as a reserved item.
    pub fn push(&mut self, byte: u8) -> (item: Option<ReportItem>)
        ensures
            final(self)@ == step(old(self)@, byte).0,
            match item {
                Some(item) => step(old(self)@, byte).1 == Some(item@),
                None => step(old(self)@, byte).1 is None,
            },
    {
        match self.take(byte) {
            Some((storage, len)) => {
                let item = ReportItem::new_unchecked(&storage[0..len]);
                Some(self.pass(item))
            },
            None => None,
        }
    }

    /// Pull bytes from `source`, one at a time, until one completes an item,
    /// and hand the item out. Where the source ends first, the item that the
    /// decoder is in the middle of is given up, and nothing is handed out.
    ///
    /// No more bytes are pulled than the item takes. What is said of the
    /// bytes of the source holds for a source that keeps the laws of
    /// iterators.
    pub fn pull<Source: Iterator<Item = u8>>(&mut self, source: &mut Source) -> (item: Option<
        ReportItem,
    >)
        ensures
            (*old(source)).obeys_prophetic_iter_laws() ==> {
                let pull = pulled(old(self)@, (*old(source)).remaining());
                &&& final(self)@ == pull.state
                &&& (*final(source)).remaining() == pull.rest
                &&& match item {
                    Some(item) => pull.item == Some(item@),
                    None => pull.item is None,
                }
            },
    {
        match self.take_from(source) {
            Some((storage, len)) => {
                let item = ReportItem::new_unchecked(&storage[0..len]);
                Some(self.pass(item))
            },
            None => None,
        }
    }

    /// Take in one byte of the stream in strict mode. Where the byte
    /// completes an item, the item is handed out; in place of an item that
    /// the catalog does not know, [`HidError::ReservedItem`] is handed out,
    /// and the bytes that follow are decoded as after any other item.
    pub fn push_strict(&mut self, byte: u8) -> (result: Option<Result<ReportItem, HidError>>)
        ensures
            final(self)@ == step(old(self)@, byte).0,
            match result {
                Some(result) => step(old(self)@, byte).1 is Some && is_strict(
                    result,
                    step(old(self)@, byte).1->Some_0,
                ),
                None => step(old(self)@, byte).1 is None,
            },
    {
        match self.take(byte) {
            Some((storage, len)) => {
                match ReportItem::new_strict_unchecked(&storage[0..len]) {
                    Ok(item) => Some(Ok(self.pass(item))),
                    Err(e) => Some(Err(e)),
                }
            },
            None => None,
        }
    }

    /// Pull bytes from `source` as [`pull`](Decoder::pull) does, in strict
    /// mode: in place of an item that the catalog does not know,
    /// [`HidError::ReservedItem`] is handed out.
    pub fn pull_strict<Source: Iterator<Item = u8>>(&mut self, source: &mut Source) -> (result:
        Option<Result<ReportItem, HidError>>)
        ensures
            (*old(source)).obeys_prophetic_iter_laws() ==> {
                let pull = pulled(old(self)@, (*old(source)).remaining());
                &&& final(self)@ == pull.state
                &&& (*final(source)).remaining() == pull.rest
                &&& match result {
                    Some(result) => pull.item is Some && is_strict(result, pull.item->Some_0),
                    None => pull.item is None,
                }
            },
    {
        match self.take_from(source) {
            Some((storage, len)) => {
                match ReportItem::new_strict_unchecked(&storage[0..len]) {
                    Ok(item) => Some(Ok(self.pass(item))),
                    Err(e) => Some(Err(e)),
                }
            },
            None => None,
        }
    }
}

/// Parse a byte stream into report items.
///
/// Items that cannot be recognized will be treated as [`Reserved`](ReportItem::Reserved).
/// If you want to fail on unknown items, use [`parse_strict()`](parse_strict()) instead.
///
/// A stream that ends in the middle of an item gives the items in front of
/// that one, and no error.
pub fn parse(byte_stream: &[u8]) -> (items: Vec<ReportItem>)
    ensures
        item_views(items@) == parsed(byte_stream@),
{
    let mut decoder = Decoder::new();
    let mut items: Vec<ReportItem> = Vec::new();
    let mut i: usize = 0;
    proof {
        lemma_state_at_start();
        assert(byte_stream@.take(0) =~= Seq::<u8>::empty());
    }
    while i < byte_stream.len()
        invariant
            i <= byte_stream.len(),
            item_views(items@) == parsed(byte_stream@.take(i as int)),
            decoder@ == state_after(byte_stream@.take(i as int)),
        decreases byte_stream.len() - i,
    {
        proof {
            lemma_parsed_push(byte_stream@.take(i as int), byte_stream@[i as int]);
            assert(byte_stream@.take(i as int).push(byte_stream@[i as int]) =~= byte_stream@.take(
                i + 1,
            ));
        }
        if let Some(item) = decoder.push(byte_stream[i]) {
            items.push(item);
        }
        i += 1;
    }
    assert(byte_stream@.take(byte_stream.len() as int) =~= byte_stream@);
    items
}

/// Parse a byte stream into report items in strict mode.
///
/// Items that cannot be recognized will be treated as [`HidError::ReservedItem`].
/// Also, this is the only error that may be reported. There is one result
/// for each item of the stream, and an error does not end the parse.
pub fn parse_strict(byte_stream: &[u8]) -> (results: Vec<Result<ReportItem, HidError>>)
    ensures
        results@.len() == parsed(byte_stream@).len(),
        forall|i: int|
            0 <= i < results@.len() ==> is_strict(#[trigger] results@[i], parsed(byte_stream@)[i]),
{
    let mut decoder = Decoder::new();
    let mut results: Vec<Result<ReportItem, HidError>> = Vec::new();
    let mut i: usize = 0;
    proof {
        lemma_state_at_start();
        assert(byte_stream@.take(0) =~= Seq::<u8>::empty());
    }
    while i < byte_stream.len()
        invariant
            i <= byte_stream.len(),
            results@.len() == parsed(byte_stream@.take(i as int)).len(),
            forall|j: int|
                0 <= j < results@.len() ==> is_strict(
                    #[trigger] results@[j],
                    parsed(byte_stream@.take(i as int))[j],
                ),
            decoder@ == state_after(byte_stream@.take(i as int)),
        decreases byte_stream.len() - i,
    {
        proof {
            lemma_parsed_push(byte_stream@.take(i as int), byte_stream@[i as int]);
            assert(byte_stream@.take(i as int).push(byte_stream@[i as int]) =~= byte_stream@.take(
                i + 1,
            ));
        }
        if let Some(result) = decoder.push_strict(byte_stream[i]) {
            results.push(result);
        }
        i += 1;
    }
    assert(byte_stream@.take(byte_stream.len() as int) =~= byte_stream@);
    results
}

/// Dump items into a byte stream: the bytes of each item, in the order of
/// the items. A usage page that an item carries is no part of its bytes.
pub fn dump(item_stream: &[ReportItem]) -> (bytes: Vec<u8>)
    ensures
        bytes@ == dumped(item_views(item_stream@)),
{
    let ghost items = item_views(item_stream@);
    let mut bytes: Vec<u8> = Vec::new();
    let mut i: usize = 0;
    while i < item_stream.len()
        invariant
            i <= item_stream.len(),
            items == item_views(item_stream@),
            bytes@ == dumped_first(items, i as nat),
        decreases item_stream.len() - i,
    {
        bytes.extend_from_slice(item_stream[i].as_ref());
        i += 1;
    }
    bytes
}

} // verus!
