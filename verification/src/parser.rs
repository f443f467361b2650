//! The escape-sequence parser in front of the model: bytes go into a
//! `vte::Parser`, the callbacks it makes come back as events, and the events
//! are applied to the screen.

use vstd::prelude::*;
use vstd::slice::slice_to_vec;
use vstd::string::StringSliceAdditionalSpecFns;
use crate::font::{profont_table, DEFAULT_FONT, FONT_COUNT};
use crate::model::{ModelView, ScreenModel, MAX_SCROLLBACK};

verus! {

/// `vte::Parser`, the escape-sequence state machine. Nothing inside it is
/// visible here; see `parser_state`.
#[verifier::external_type_specification]
#[verifier::external_body]
pub struct ExParser<const OSC_RAW_BUF_SIZE: usize>(vte::Parser<OSC_RAW_BUF_SIZE>);

/// `vte::Params`, the parameters that the parser hands to a callback.
#[verifier::external_type_specification]
#[verifier::external_body]
pub struct ExParams(vte::Params);

/// One callback of the parser, with what it was given.
#[derive(Debug)]
#[allow(inconsistent_fields)]
pub enum VtEvent {
    /// A character to draw.
    Print(char),
    /// A C0 or C1 control.
    Execute(u8),
    /// A complete CSI sequence: the leading value of each parameter, the
    /// intermediate bytes, whether the parser gave up on it, the final byte.
    Csi { params: Vec<u16>, intermediates: Vec<u8>, ignore: bool, action: char },
    /// The start of a device control string.
    Hook { params: Vec<u16>, intermediates: Vec<u8>, ignore: bool, action: char },
    /// A byte of a device control string.
    Put(u8),
    /// The end of a device control string.
    Unhook,
    /// An operating system command.
    Osc { params: Vec<Vec<u8>>, bell_terminated: bool },
    /// An escape sequence that is no CSI.
    Esc { intermediates: Vec<u8>, ignore: bool, byte: u8 },
}

/// An event as mathematical values.
#[allow(inconsistent_fields)]
pub enum VtEventView {
    Print(char),
    Execute(u8),
    Csi { params: Seq<u16>, intermediates: Seq<u8>, ignore: bool, action: char },
    Hook { params: Seq<u16>, intermediates: Seq<u8>, ignore: bool, action: char },
    Put(u8),
    Unhook,
    Osc { params: Seq<Seq<u8>>, bell_terminated: bool },
    Esc { intermediates: Seq<u8>, ignore: bool, byte: u8 },
}

impl DeepView for VtEvent {
    type V = VtEventView;

    open spec fn deep_view(&self) -> VtEventView {
        match *self {
            VtEvent::Print(c) => VtEventView::Print(c),
            VtEvent::Execute(byte) => VtEventView::Execute(byte),
            VtEvent::Csi { params, intermediates, ignore, action } => VtEventView::Csi {
                params: params@,
                intermediates: intermediates@,
                ignore,
                action,
            },
            VtEvent::Hook { params, intermediates, ignore, action } => VtEventView::Hook {
                params: params@,
                intermediates: intermediates@,
                ignore,
                action,
            },
            VtEvent::Put(byte) => VtEventView::Put(byte),
            VtEvent::Unhook => VtEventView::Unhook,
            VtEvent::Osc { params, bell_terminated } => VtEventView::Osc {
                params: params.deep_view(),
                bell_terminated,
            },
            VtEvent::Esc { intermediates, ignore, byte } => VtEventView::Esc {
                intermediates: intermediates@,
                ignore,
                byte,
            },
        }
    }
}

impl ModelView {
    /// The screen after one event. Printing, C0 controls and CSI sequences act
    /// on it; device control strings, operating system commands and other
    /// escape sequences are accepted and change nothing.
    pub open spec fn apply(self, event: VtEventView) -> ModelView {
        match event {
            VtEventView::Print(c) => self.print(c),
            VtEventView::Execute(byte) => self.execute(byte),
            VtEventView::Csi { params, intermediates, ignore, action } => self.csi(
                params,
                intermediates,
                ignore,
                action,
            ),
            _ => self,
        }
    }

    /// The screen after a sequence of events, first to last.
    pub open spec fn apply_all(self, events: Seq<VtEventView>) -> ModelView
        decreases events.len(),
    {
        if events.len() == 0 {
            self
        } else {
            self.apply_all(events.drop_last()).apply(events.last())
        }
    }

    /// The screen after printing a sequence of characters, first to last.
    pub open spec fn print_all(self, chars: Seq<char>) -> ModelView
        decreases chars.len(),
    {
        if chars.len() == 0 {
            self
        } else {
            self.print_all(chars.drop_last()).print(chars.last())
        }
    }
}

impl ScreenModel {
    /// Applies one event of the parser to the screen.
    pub fn perform(&mut self, event: &VtEvent)
        requires
            old(self)@.wf(),
        ensures
            final(self)@ == old(self)@.apply(event.deep_view()),
            final(self)@.wf(),
    {
        match event {
            VtEvent::Print(c) => self.print(*c),
            VtEvent::Execute(byte) => self.execute(*byte),
            VtEvent::Csi { params, intermediates, ignore, action } => self.csi_dispatch(
                params.as_slice(),
                intermediates.as_slice(),
                *ignore,
                *action,
            ),
            VtEvent::Hook { params, intermediates, ignore, action } => self.hook(
                params.as_slice(),
                intermediates.as_slice(),
                *ignore,
                *action,
            ),
            VtEvent::Put(byte) => self.put(*byte),
            VtEvent::Unhook => self.unhook(),
            VtEvent::Osc { params, bell_terminated } => self.osc_dispatch(params.as_slice(), *bell_terminated),
            VtEvent::Esc { intermediates, ignore, byte } => self.esc_dispatch(
                intermediates.as_slice(),
                *ignore,
                *byte,
            ),
        }
    }

    /// Applies a run of events to the screen, first to last.
    pub fn perform_all(&mut self, events: &[VtEvent])
        requires
            old(self)@.wf(),
        ensures
            final(self)@ == old(self)@.apply_all(events.deep_view()),
            final(self)@.wf(),
    {
        let mut i: usize = 0;
        while i < events.len()
            invariant
                i <= events@.len(),
                self@.wf(),
                self@ == old(self)@.apply_all(events.deep_view().take(i as int)),
            decreases events@.len() - i,
        {
            proof {
                let done = events.deep_view().take(i + 1);
                assert(done.drop_last() =~= events.deep_view().take(i as int));
                assert(done.last() == events@[i as int].deep_view());
            }
            self.perform(&events[i]);
            i += 1;
        }
        proof {
            assert(events.deep_view().take(i as int) =~= events.deep_view());
        }
    }
}

/// What a list of parameters holds: each parameter as its own value followed
/// by its subparameters, in the order in which they arrived.
pub uninterp spec fn param_values(params: vte::Params) -> Seq<Seq<u16>>;

/// The leading value of each parameter: its own value, without subparameters.
pub open spec fn leading(values: Seq<Seq<u16>>) -> Seq<u16> {
    Seq::new(values.len(), |i: int| values[i][0])
}

/// The parameters of a sequence as they were written. The parser reports a
/// sequence that was written without parameters as one parameter of value 0;
/// that one report stands for no parameters, so that each sequence takes its
/// own default.
pub open spec fn written_params(values: Seq<u16>) -> Seq<u16> {
    if values.len() == 1 && values[0] == 0 {
        Seq::empty()
    } else {
        values
    }
}

/// What a list of byte strings holds.
pub open spec fn byte_strings(params: Seq<&[u8]>) -> Seq<Seq<u8>> {
    Seq::new(params.len(), |i: int| params[i]@)
}

/// Collects the callbacks that the parser makes while it is given one byte.
struct EventLog {
    events: Vec<VtEvent>,
}

impl EventLog {
    /// The callbacks collected so far, oldest first.
    pub closed spec fn log(&self) -> Seq<VtEventView> {
        self.events.deep_view()
    }

    /// Appends one event to the log.
    fn record(&mut self, event: VtEvent)
        ensures
            final(self).log() == old(self).log().push(event.deep_view()),
    {
        self.events.push(event);
        assert(self.log() =~= old(self).log().push(event.deep_view()));
    }
}

impl vte::Perform for EventLog {
    /// Records the character to draw.
    fn print(&mut self, c: char)
        ensures
            final(self).log() == old(self).log().push(VtEventView::Print(c)),
    {
        self.record(VtEvent::Print(c));
    }

    /// Records the control byte.
    fn execute(&mut self, byte: u8)
        ensures
            final(self).log() == old(self).log().push(VtEventView::Execute(byte)),
    {
        self.record(VtEvent::Execute(byte));
    }

    /// Records the start of a device control string, with the leading value
    /// of each parameter.
    fn hook(&mut self, params: &vte::Params, intermediates: &[u8], ignore: bool, action: char)
        ensures
            final(self).log() == old(self).log().push(
                VtEventView::Hook {
                    params: leading(param_values(*params)),
                    intermediates: intermediates@,
                    ignore,
                    action,
                },
            ),
    {
        self.record(
            VtEvent::Hook {
                params: leading_values(params),
                intermediates: slice_to_vec(intermediates),
                ignore,
                action,
            },
        );
    }

    /// Records a byte of a device control string.
    fn put(&mut self, byte: u8)
        ensures
            final(self).log() == old(self).log().push(VtEventView::Put(byte)),
    {
        self.record(VtEvent::Put(byte));
    }

    /// Records the end of a device control string.
    fn unhook(&mut self)
        ensures
            final(self).log() == old(self).log().push(VtEventView::Unhook),
    {
        self.record(VtEvent::Unhook);
    }

    /// Records an operating system command, with a copy of each of its
    /// parameters.
    fn osc_dispatch(&mut self, params: &[&[u8]], bell_terminated: bool)
        ensures
            final(self).log() == old(self).log().push(
                VtEventView::Osc { params: byte_strings(params@), bell_terminated },
            ),
    {
        let mut owned: Vec<Vec<u8>> = Vec::new();
        let mut i: usize = 0;
        while i < params.len()
            invariant
                i <= params@.len(),
                owned@.len() == i,
                forall|k: int| 0 <= k < i ==> (#[trigger] owned@[k])@ == params@[k]@,
            decreases params@.len() - i,
        {
            owned.push(slice_to_vec(params[i]));
            i += 1;
        }
        assert forall|k: int| 0 <= k < owned@.len() implies #[trigger] owned.deep_view()[k] == params@[k]@ by {
            assert(owned@[k].deep_view() =~= owned@[k]@);
        }
        assert(owned.deep_view() =~= byte_strings(params@));
        self.record(VtEvent::Osc { params: owned, bell_terminated });
    }

    /// Records a complete CSI sequence, with the leading value of each
    /// parameter; a lone 0, which is how the parser reports a sequence written
    /// without parameters, is recorded as no parameters.
    fn csi_dispatch(&mut self, params: &vte::Params, intermediates: &[u8], ignore: bool, action: char)
        ensures
            final(self).log() == old(self).log().push(
                VtEventView::Csi {
                    params: written_params(leading(param_values(*params))),
                    intermediates: intermediates@,
                    ignore,
                    action,
                },
            ),
    {
        let mut values = leading_values(params);
        if values.len() == 1 && values[0] == 0 {
            values = Vec::new();
        }
        self.record(VtEvent::Csi { params: values, intermediates: slice_to_vec(intermediates), ignore, action });
    }

    /// Records an escape sequence that is no CSI.
    fn esc_dispatch(&mut self, intermediates: &[u8], ignore: bool, byte: u8)
        ensures
            final(self).log() == old(self).log().push(
                VtEventView::Esc { intermediates: intermediates@, ignore, byte },
            ),
    {
        self.record(VtEvent::Esc { intermediates: slice_to_vec(intermediates), ignore, byte });
    }
}

/// What a parser will do with the bytes to come, as one number: two parsers
/// have the same number exactly when every run of bytes draws the same
/// callbacks from both. The number of a new parser is 0.
pub uninterp spec fn parser_state(parser: vte::Parser) -> nat;

/// What `vte::Parser::advance` does when a parser in state `state` is given
/// `byte`: the callbacks it makes, in order and as `EventLog` records them,
/// and the state it is left in.
pub uninterp spec fn advanced(state: nat, byte: u8) -> (Seq<VtEventView>, nat);

/// `vte::Params::iter`, keeping the first value of each parameter and leaving
/// out its subparameters. Trusted: the iterator hands out the parameters in
/// order, each as a slice that starts with the parameter's own value.
#[verifier::external_body]
fn leading_values(params: &vte::Params) -> (values: Vec<u16>)
    ensures
        values@ == leading(param_values(*params)),
{
    params.iter().map(|param| param[0]).collect()
}

/// `vte::Parser::new`. Trusted: the state of a new parser is numbered 0.
#[verifier::external_body]
fn new_parser() -> (parser: vte::Parser)
    ensures
        parser_state(parser) == 0,
{
    vte::Parser::new()
}

/// What a parser that is between sequences makes of a byte of plain text: a
/// control byte is executed, any other is printed as the character it is.
pub open spec fn plain_event(byte: u8) -> VtEventView {
    if byte < 0x20 {
        VtEventView::Execute(byte)
    } else {
        VtEventView::Print(byte as char)
    }
}

/// Whether a CSI sequence or an escape sequence is among the callbacks: the
/// byte that drew them was the last of that sequence.
pub open spec fn ends_sequence(events: Seq<VtEventView>) -> bool {
    exists|i: int| 0 <= i < events.len() && (#[trigger] events[i] is Csi || events[i] is Esc)
}

/// `vte::Parser::advance` with an `EventLog` as the performer. Trusted: what
/// the parser calls back and what it will do afterwards depend on nothing
/// but what it would have done before and the byte. A parser that is as new,
/// given a 7-bit byte other than ESC (0x1b), makes one callback, `execute` for
/// a byte below 0x20 and `print` for the others, and stays as new. A parser
/// that has called `csi_dispatch` or `esc_dispatch` has gone back to its
/// ground state, from where it does with the bytes to come what a new parser
/// does.
#[verifier::external_body]
fn advance(parser: &mut vte::Parser, byte: u8) -> (events: Vec<VtEvent>)
    ensures
        (events.deep_view(), parser_state(*final(parser))) == advanced(parser_state(*old(parser)), byte),
        parser_state(*old(parser)) == 0 && byte < 0x80 && byte != 0x1b ==> events.deep_view() == seq![
            plain_event(byte),
        ] && parser_state(*final(parser)) == 0,
        ends_sequence(events.deep_view()) ==> parser_state(*final(parser)) == 0,
{
    let mut log = EventLog { events: Vec::new() };
    parser.advance(&mut log, byte);
    log.events
}

/// The screen and the parser state after the bytes have gone through a
/// parser that was in state `state`, in front of the screen `model`.
pub open spec fn feed(model: ModelView, state: nat, bytes: Seq<u8>) -> (ModelView, nat)
    decreases bytes.len(),
{
    if bytes.len() == 0 {
        (model, state)
    } else {
        let (m, s) = feed(model, state, bytes.drop_last());
        let (events, next) = advanced(s, bytes.last());
        (m.apply_all(events), next)
    }
}

/// The callbacks that the last of the bytes draws from a parser that was in
/// state `state` before the first.
pub open spec fn last_callbacks(state: nat, bytes: Seq<u8>) -> Seq<VtEventView>
    recommends
        bytes.len() > 0,
{
    advanced(fed_state(state, bytes.drop_last()), bytes.last()).0
}

/// The state of a parser that was in state `state` after the bytes.
pub open spec fn fed_state(state: nat, bytes: Seq<u8>) -> nat
    decreases bytes.len(),
{
    if bytes.len() == 0 {
        state
    } else {
        advanced(fed_state(state, bytes.drop_last()), bytes.last()).1
    }
}

/// The parser goes its way whatever screen stands behind it.
pub proof fn lemma_feed_state(model: ModelView, state: nat, bytes: Seq<u8>)
    ensures
        feed(model, state, bytes).1 == fed_state(state, bytes),
    decreases bytes.len(),
{
    if bytes.len() > 0 {
        lemma_feed_state(model, state, bytes.drop_last());
    }
}

/// Whether the bytes are plain text: 7-bit bytes with no ESC (0x1b) among them.
pub open spec fn plain_text(bytes: Seq<u8>) -> bool {
    forall|i: int| 0 <= i < bytes.len() ==> #[trigger] bytes[i] < 0x80 && bytes[i] != 0x1b
}

/// The events that plain text gives, one for each byte.
pub open spec fn plain_events(bytes: Seq<u8>) -> Seq<VtEventView> {
    Seq::new(bytes.len(), |i: int| plain_event(bytes[i]))
}

/// Whether every byte is a printable ASCII character (0x20 to 0x7e).
pub open spec fn printable_ascii(bytes: Seq<u8>) -> bool {
    forall|i: int| 0 <= i < bytes.len() ==> 0x20 <= #[trigger] bytes[i] <= 0x7e
}

/// The bytes as characters, one for one.
pub open spec fn ascii_chars(bytes: Seq<u8>) -> Seq<char> {
    Seq::new(bytes.len(), |i: int| bytes[i] as char)
}

/// Printable ASCII is printed character by character.
pub proof fn lemma_printable_text_is_printed(m: ModelView, bytes: Seq<u8>)
    requires
        printable_ascii(bytes),
    ensures
        plain_text(bytes),
        m.apply_all(plain_events(bytes)) == m.print_all(ascii_chars(bytes)),
    decreases bytes.len(),
{
    if bytes.len() > 0 {
        let most = bytes.drop_last();
        lemma_printable_text_is_printed(m, most);
        assert(plain_events(bytes).drop_last() =~= plain_events(most));
        assert(ascii_chars(bytes).drop_last() =~= ascii_chars(most));
        assert(plain_events(bytes).last() == VtEventView::Print(ascii_chars(bytes).last()));
    }
}

/// A terminal screen with the parser that feeds it. It can be used as the
/// `ScreenModel` that it holds.
pub struct Screen {
    model: ScreenModel,
    parser: vte::Parser,
}

impl View for Screen {
    type V = ModelView;

    closed spec fn view(&self) -> ModelView {
        self.model@
    }
}

impl Screen {
    /// The state of the parser, see `parser_state`.
    pub closed spec fn pending(&self) -> nat {
        parser_state(self.parser)
    }

    /// Whether the parser is between sequences and does with the bytes to
    /// come what a new parser does.
    pub open spec fn at_rest(&self) -> bool {
        self.pending() == 0
    }

    /// A blank screen in the default font with a new parser.
    pub fn new() -> (screen: Screen)
        ensures
            screen@ == ModelView::fresh(
                DEFAULT_FONT as nat,
                profont_table()[DEFAULT_FONT as int],
                MAX_SCROLLBACK as nat,
            ),
            screen@.wf(),
            screen@.cols == 45,
            screen@.rows == 26,
            screen.at_rest(),
    {
        Screen { model: ScreenModel::default(), parser: new_parser() }
    }

    /// A blank screen laid out for the ProFont cut with the given index, with
    /// room for `max_scrollback` rows of scrollback and a new parser; `None` if
    /// there is no such font.
    pub fn with_font(font_index: usize, max_scrollback: usize) -> (screen: Option<Screen>)
        ensures
            font_index < FONT_COUNT ==> (screen matches Some(s) && s@ == ModelView::fresh(
                font_index as nat,
                profont_table()[font_index as int],
                max_scrollback as nat,
            )),
            font_index >= FONT_COUNT ==> screen is None,
            screen matches Some(s) ==> s@.wf() && s.at_rest(),
    {
        match ScreenModel::with_font(font_index, max_scrollback) {
            Some(model) => Some(Screen { model, parser: new_parser() }),
            None => None,
        }
    }

    /// Feeds terminal output to the screen, byte by byte through the parser.
    /// Into a parser at rest, plain text goes byte by byte, control bytes
    /// executed and the others printed, and leaves the parser at rest. The
    /// parser is also at rest after the last byte of a CSI or escape sequence.
    pub fn parse_bytes(&mut self, bytes: &[u8])
        requires
            old(self)@.wf(),
        ensures
            final(self)@.wf(),
            (final(self)@, final(self).pending()) == feed(old(self)@, old(self).pending(), bytes@),
            old(self).at_rest() && plain_text(bytes@) ==> final(self)@ == old(self)@.apply_all(plain_events(bytes@))
                && final(self).at_rest(),
            old(self).at_rest() && printable_ascii(bytes@) ==> final(self)@ == old(self)@.print_all(
                ascii_chars(bytes@),
            ),
            bytes@.len() > 0 && ends_sequence(last_callbacks(old(self).pending(), bytes@)) ==> final(self).at_rest(),
    {
        let ghost plain = old(self).at_rest() && plain_text(bytes@);
        let mut i: usize = 0;
        while i < bytes.len()
            invariant
                i <= bytes@.len(),
                self@.wf(),
                (self@, self.pending()) == feed(old(self)@, old(self).pending(), bytes@.take(i as int)),
                plain == (old(self).at_rest() && plain_text(bytes@)),
                plain ==> self@ == old(self)@.apply_all(plain_events(bytes@.take(i as int))) && self.at_rest(),
                i > 0 && ends_sequence(last_callbacks(old(self).pending(), bytes@.take(i as int)))
                    ==> self.at_rest(),
            decreases bytes@.len() - i,
        {
            let ghost before = self@;
            let events = advance(&mut self.parser, bytes[i]);
            self.model.perform_all(events.as_slice());
            proof {
                let fed = bytes@.take(i + 1);
                assert(fed.drop_last() =~= bytes@.take(i as int));
                assert(fed.last() == bytes@[i as int]);
                lemma_feed_state(old(self)@, old(self).pending(), fed.drop_last());
                assert(last_callbacks(old(self).pending(), fed) == events.deep_view());
                if plain {
                    let one = seq![plain_event(bytes@[i as int])];
                    assert(one.drop_last() =~= Seq::<VtEventView>::empty());
                    assert(before.apply_all(one.drop_last()) == before);
                    assert(before.apply_all(one) == before.apply(plain_event(bytes@[i as int])));
                    assert(plain_events(fed).drop_last() =~= plain_events(bytes@.take(i as int)));
                    assert(plain_events(fed).last() == plain_event(bytes@[i as int]));
                }
            }
            i += 1;
        }
        proof {
            assert(bytes@.take(i as int) =~= bytes@);
            if printable_ascii(bytes@) {
                lemma_printable_text_is_printed(old(self)@, bytes@);
            }
        }
    }

    /// Feeds text to the screen as its UTF-8 bytes.
    pub fn print(&mut self, text: &str)
        requires
            old(self)@.wf(),
        ensures
            final(self)@.wf(),
            (final(self)@, final(self).pending()) == feed(old(self)@, old(self).pending(), text.spec_bytes()),
            old(self).at_rest() && plain_text(text.spec_bytes()) ==> final(self)@ == old(self)@.apply_all(
                plain_events(text.spec_bytes()),
            ) && final(self).at_rest(),
            old(self).at_rest() && printable_ascii(text.spec_bytes()) ==> final(self)@ == old(self)@.print_all(
                ascii_chars(text.spec_bytes()),
            ),
            text.spec_bytes().len() > 0 && ends_sequence(last_callbacks(old(self).pending(), text.spec_bytes()))
                ==> final(self).at_rest(),
    {
        self.parse_bytes(text.as_bytes())
    }

    /// Clears the screen. The parser is left as it is.
    pub fn clear(&mut self)
        requires
            old(self)@.wf(),
        ensures
            final(self)@ == old(self)@.reset_view().erase_all(),
            final(self)@.wf(),
            final(self).pending() == old(self).pending(),
    {
        self.model.clear();
    }
}

impl core::ops::Deref for Screen {
    type Target = ScreenModel;

    /// The screen's model, to read.
    fn deref(&self) -> (model: &ScreenModel)
        ensures
            model@ == self@,
    {
        &self.model
    }
}

impl core::ops::DerefMut for Screen {
    /// The screen's model, to change. The parser is left as it is.
    fn deref_mut(&mut self) -> (model: &mut ScreenModel)
        ensures
            model@ == old(self)@,
            final(self)@ == final(model)@,
            final(self).pending() == old(self).pending(),
    {
        &mut self.model
    }
}

} // verus!
