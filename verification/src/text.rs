//! Text on the map: signs that stand in the level, and zones that show a
//! line of text at the bottom of the screen while the player is in them.

use vstd::prelude::*;
use crate::contact::ContactEvent;
use crate::fields::{field_entries, text_or_empty, ConfigError, FieldTable, LevelField};

verus! {

/// What a [`TextSign`] holds.
pub struct TextSignView {
    pub text: Seq<char>,
    /// The font size as the level gives it: a number written out in
    /// decimal, or whatever a string field says.
    pub font_size: Seq<char>,
}

/// The error, if any, that a sign with the fields of `table` is turned down
/// with: the first of text and font size that is missing.
pub open spec fn sign_error(table: Map<Seq<char>, Option<Seq<char>>>) -> Option<ConfigError> {
    if !table.contains_key("text"@) {
        Some(ConfigError::MissingText)
    } else if !table.contains_key("font_size"@) {
        Some(ConfigError::MissingFontSize)
    } else {
        None
    }
}

/// A sign that stands in the level.
#[derive(Debug)]
pub struct TextSign {
    text: String,
    font_size: String,
}

impl View for TextSign {
    type V = TextSignView;

    closed spec fn view(&self) -> TextSignView {
        TextSignView { text: self.text@, font_size: self.font_size@ }
    }
}

impl TextSign {
    /// Reads a sign from the fields of its level entity. String fields are
    /// read as they are and number fields in their decimal form; a field of
    /// another type, or an empty one, reads as the empty text. A sign needs
    /// a field for its text and one for its font size: the first of them
    /// that is not there is reported.
    pub fn from_fields(fields: &Vec<LevelField>) -> (sign: Result<TextSign, ConfigError>)
        ensures
            match sign {
                Ok(read) => sign_error(field_entries(fields@, true)) is None && read@ == (
                TextSignView {
                    text: text_or_empty(field_entries(fields@, true)["text"@]),
                    font_size: text_or_empty(field_entries(fields@, true)["font_size"@]),
                }),
                Err(error) => sign_error(field_entries(fields@, true)) == Some(error),
            },
    {
        let table = FieldTable::collect(fields, true);
        let text = match table.text_or_empty("text") {
            Some(text) => text,
            None => {
                return Err(ConfigError::MissingText);
            },
        };
        let font_size = match table.text_or_empty("font_size") {
            Some(size) => size,
            None => {
                return Err(ConfigError::MissingFontSize);
            },
        };
        Ok(TextSign { text, font_size })
    }

    /// The text on the sign.
    pub fn text(&self) -> (text: &String)
        ensures
            text@ == self@.text,
    {
        &self.text
    }

    /// The font size as the level gives it, still to be read as a number.
    pub fn font_size(&self) -> (font_size: &String)
        ensures
            font_size@ == self@.font_size,
    {
        &self.font_size
    }
}

/// The text of one text zone.
#[derive(Debug)]
pub struct TextInfo {
    text: String,
}

impl View for TextInfo {
    type V = Seq<char>;

    closed spec fn view(&self) -> Seq<char> {
        self.text@
    }
}

impl TextInfo {
    /// A zone with the given text.
    pub fn new(text: String) -> (info: TextInfo)
        ensures
            info@ == text@,
    {
        TextInfo { text }
    }

    /// Reads a zone from the fields of its level entity. Only string fields
    /// carry text; a `text` field of another type, or an empty one, makes a
    /// zone with the empty text. A zone without a `text` field is turned
    /// down.
    pub fn from_fields(fields: &Vec<LevelField>) -> (zone: Result<TextInfo, ConfigError>)
        ensures
            match zone {
                Ok(info) => field_entries(fields@, false).contains_key("text"@) && info@
                    == text_or_empty(field_entries(fields@, false)["text"@]),
                Err(error) => !field_entries(fields@, false).contains_key("text"@) && error
                    == ConfigError::MissingText,
            },
    {
        let table = FieldTable::collect(fields, false);
        match table.text_or_empty("text") {
            Some(text) => Ok(TextInfo { text }),
            None => Err(ConfigError::MissingText),
        }
    }

    /// The text to show.
    pub fn text(&self) -> (text: &String)
        ensures
            text@ == self@,
    {
        &self.text
    }
}

/// A text zone of the loaded level: its body and its text.
#[derive(Debug)]
pub struct TextZone {
    pub body: u64,
    pub info: TextInfo,
}

/// The text of the zone whose body is `body`, if there is such a zone; the
/// first one counts.
pub open spec fn zone_text(zones: Seq<TextZone>, body: u64) -> Option<Seq<char>>
    decreases zones.len(),
{
    if zones.len() == 0 {
        None
    } else if zones.first().body == body {
        Some(zones.first().info@)
    } else {
        zone_text(zones.drop_first(), body)
    }
}

/// The text that a contact event brings up: that of its first body if that
/// is a zone, else that of its second body if that is one.
pub open spec fn event_text(zones: Seq<TextZone>, event: ContactEvent) -> Option<Seq<char>> {
    match zone_text(zones, event.first) {
        Some(text) => Some(text),
        None => zone_text(zones, event.second),
    }
}

/// What a [`ZoneBanner`] holds.
pub struct ZoneBannerView {
    pub visible: bool,
    pub text: Seq<char>,
}

impl ZoneBannerView {
    /// The banner after the contacts that began this tick: each one that
    /// involves a zone shows the banner with that zone's text.
    pub open spec fn show(self, zones: Seq<TextZone>, events: Seq<ContactEvent>) -> ZoneBannerView
        decreases events.len(),
    {
        if events.len() == 0 {
            self
        } else if events.last().phase is Started && event_text(zones, events.last()) is Some {
            ZoneBannerView { visible: true, text: event_text(zones, events.last())->0 }
        } else {
            self.show(zones, events.drop_last())
        }
    }

    /// The banner after the contacts that ended this tick: each one that
    /// involves a zone hides the banner and clears its text.
    pub open spec fn conceal(self, zones: Seq<TextZone>, events: Seq<ContactEvent>) -> ZoneBannerView
        decreases events.len(),
    {
        if events.len() == 0 {
            self
        } else if events.last().phase is Stopped && event_text(zones, events.last()) is Some {
            ZoneBannerView { visible: false, text: Seq::empty() }
        } else {
            self.conceal(zones, events.drop_last())
        }
    }
}

/// The line of text at the bottom of the screen.
#[derive(Debug)]
pub struct ZoneBanner {
    visible: bool,
    text: String,
}

impl View for ZoneBanner {
    type V = ZoneBannerView;

    closed spec fn view(&self) -> ZoneBannerView {
        ZoneBannerView { visible: self.visible, text: self.text@ }
    }
}

fn find_zone<'a>(zones: &'a Vec<TextZone>, body: u64) -> (found: Option<&'a TextInfo>)
    ensures
        found is Some == zone_text(zones@, body) is Some,
        found matches Some(info) ==> Some(info@) == zone_text(zones@, body),
{
    let mut k: usize = 0;
    assert(zones@.subrange(0, zones@.len() as int) =~= zones@);
    while k < zones.len()
        invariant
            k <= zones@.len(),
            zone_text(zones@, body) == zone_text(
                zones@.subrange(k as int, zones@.len() as int),
                body,
            ),
        decreases zones@.len() - k,
    {
        let ghost rest = zones@.subrange(k as int, zones@.len() as int);
        assert(rest.drop_first() =~= zones@.subrange(k + 1, zones@.len() as int));
        if zones[k].body == body {
            return Some(&zones[k].info);
        }
        k = k + 1;
    }
    None
}

fn find_event_zone<'a>(zones: &'a Vec<TextZone>, event: &ContactEvent) -> (found: Option<
    &'a TextInfo,
>)
    ensures
        found is Some == event_text(zones@, *event) is Some,
        found matches Some(info) ==> Some(info@) == event_text(zones@, *event),
{
    match find_zone(zones, event.first) {
        Some(info) => Some(info),
        None => find_zone(zones, event.second),
    }
}

impl ZoneBanner {
    /// A hidden banner without text.
    pub fn new() -> (banner: ZoneBanner)
        ensures
            !banner@.visible,
            banner@.text == Seq::<char>::empty(),
    {
        ZoneBanner { visible: false, text: String::new() }
    }

    /// Whether the banner shows.
    pub fn is_visible(&self) -> (visible: bool)
        ensures
            visible == self@.visible,
    {
        self.visible
    }

    /// The text of the banner.
    pub fn text(&self) -> (text: &String)
        ensures
            text@ == self@.text,
    {
        &self.text
    }

    /// Takes in the contact events of the tick: the player entering a zone
    /// shows the banner with the zone's text.
    pub fn show_zone_text(&mut self, events: &Vec<ContactEvent>, zones: &Vec<TextZone>)
        ensures
            final(self)@ == old(self)@.show(zones@, events@),
    {
        let mut k: usize = 0;
        while k < events.len()
            invariant
                k <= events@.len(),
                self@ == old(self)@.show(zones@, events@.subrange(0, k as int)),
            decreases events@.len() - k,
        {
            let event = &events[k];
            proof {
                let upto = events@.subrange(0, k + 1);
                assert(upto.drop_last() =~= events@.subrange(0, k as int));
            }
            if event.phase == crate::contact::ContactPhase::Started {
                match find_event_zone(zones, event) {
                    Some(info) => {
                        self.text = info.text().clone();
                        self.visible = true;
                    },
                    None => {},
                }
            }
            k = k + 1;
        }
        assert(events@.subrange(0, k as int) =~= events@);
    }

    /// Takes in the contact events of the tick: the player leaving a zone
    /// hides the banner and clears its text.
    pub fn hide_zone_text(&mut self, events: &Vec<ContactEvent>, zones: &Vec<TextZone>)
        ensures
            final(self)@ == old(self)@.conceal(zones@, events@),
    {
        let mut k: usize = 0;
        while k < events.len()
            invariant
                k <= events@.len(),
                self@ == old(self)@.conceal(zones@, events@.subrange(0, k as int)),
            decreases events@.len() - k,
        {
            let event = &events[k];
            proof {
                let upto = events@.subrange(0, k + 1);
                assert(upto.drop_last() =~= events@.subrange(0, k as int));
            }
            if event.phase == crate::contact::ContactPhase::Stopped {
                if find_event_zone(zones, event).is_some() {
                    self.visible = false;
                    self.text = String::new();
                }
            }
            k = k + 1;
        }
        assert(events@.subrange(0, k as int) =~= events@);
    }
}

} // verus!
