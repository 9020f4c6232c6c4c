//! The state of the body tab: the kind of body, the widget that has the
//! focus, and the data entered.

use vstd::prelude::*;
use crate::chars::{copy_strings, same_chars, strings_view};
use crate::kv_data::{copy_rows, rows_view, KVData, KVDataView};
use crate::kv_tab::{handle_kv_tab_key, rows_after_key, state_after_key, KVTabKey};
use crate::kv_tab_state::{KVTabState, KVTabStateView};
use crate::text_edit::TextEditState;
use crate::text_model::TextEditModel;

verus! {

/// The widgets of the body tab. The flag of a select widget says whether its
/// list is open.
#[derive(Clone, Copy, Debug, PartialEq, Eq, Structural)]
pub enum BodyUIElement {
    /// The select widget for the kind of body.
    ContentType(bool),
    /// The select widget for the kind of raw body.
    RawContentType(bool),
    /// The table of form fields.
    KVArea,
    /// The text editor.
    TextArea,
}

/// The kind of body that the request carries.
#[derive(Clone, Copy, Debug, PartialEq, Eq, Structural)]
pub enum BodyContent {
    NONE,
    FormData,
    FormURLEncoded,
    Text,
    Json,
    Html,
    Xml,
}

/// The kind of a raw body.
#[derive(Clone, Copy, Debug, PartialEq, Eq, Structural)]
pub enum RawBodyContentType {
    Text,
    Json,
    Html,
    Xml,
}

#[derive(Clone, Copy, Debug, PartialEq, Eq, Structural)]
pub enum BodyCursorPosition {
    NONE,
    TabState(KVTabState),
    RawCursor(u16, u8),
}

impl Default for BodyUIElement {
    fn default() -> (e: Self)
        ensures
            e == BodyUIElement::ContentType(false),
    {
        BodyUIElement::ContentType(false)
    }
}

impl Default for BodyContent {
    fn default() -> (c: Self)
        ensures
            c == BodyContent::NONE,
    {
        BodyContent::NONE
    }
}

impl Default for RawBodyContentType {
    fn default() -> (c: Self)
        ensures
            c == RawBodyContentType::Text,
    {
        RawBodyContentType::Text
    }
}

impl Default for BodyCursorPosition {
    fn default() -> (c: Self)
        ensures
            c == BodyCursorPosition::NONE,
    {
        BodyCursorPosition::NONE
    }
}

impl BodyContent {
    /// The name shown for the kind.
    pub open spec fn label(self) -> Seq<char> {
        match self {
            BodyContent::NONE => "None"@,
            BodyContent::FormData => "Form Data"@,
            BodyContent::FormURLEncoded => "Form URL-encoded"@,
            BodyContent::Text => "Text"@,
            BodyContent::Json => "Json"@,
            BodyContent::Html => "Html"@,
            BodyContent::Xml => "Xml"@,
        }
    }

    /// The kind that `input` names; `NONE` where it names none.
    pub open spec fn parse(input: Seq<char>) -> Self {
        if input == "Form Data"@ {
            BodyContent::FormData
        } else if input == "Form URL-encoded"@ {
            BodyContent::FormURLEncoded
        } else if input == "Text"@ {
            BodyContent::Text
        } else if input == "Json"@ {
            BodyContent::Json
        } else if input == "Html"@ {
            BodyContent::Html
        } else if input == "Xml"@ {
            BodyContent::Xml
        } else {
            BodyContent::NONE
        }
    }

    /// The kinds in the order in which they are offered.
    pub open spec fn all() -> Seq<BodyContent> {
        seq![
            BodyContent::NONE,
            BodyContent::FormData,
            BodyContent::FormURLEncoded,
            BodyContent::Json,
            BodyContent::Text,
            BodyContent::Html,
            BodyContent::Xml,
        ]
    }

    pub fn to_string(&self) -> (s: String)
        ensures
            s@ == self.label(),
    {
        match self {
            BodyContent::NONE => String::from_str("None"),
            BodyContent::FormData => String::from_str("Form Data"),
            BodyContent::FormURLEncoded => String::from_str("Form URL-encoded"),
            BodyContent::Text => String::from_str("Text"),
            BodyContent::Json => String::from_str("Json"),
            BodyContent::Html => String::from_str("Html"),
            BodyContent::Xml => String::from_str("Xml"),
        }
    }

    pub fn from_string(input: String) -> (c: Self)
        ensures
            c == Self::parse(input@),
    {
        BodyContent::from_str(input.as_str())
    }

    pub fn from_str(input: &str) -> (c: Self)
        ensures
            c == Self::parse(input@),
    {
        if same_chars(input, "Form Data") {
            BodyContent::FormData
        } else if same_chars(input, "Form URL-encoded") {
            BodyContent::FormURLEncoded
        } else if same_chars(input, "Text") {
            BodyContent::Text
        } else if same_chars(input, "Json") {
            BodyContent::Json
        } else if same_chars(input, "Html") {
            BodyContent::Html
        } else if same_chars(input, "Xml") {
            BodyContent::Xml
        } else {
            BodyContent::NONE
        }
    }

    /// The kinds in the order in which they are offered.
    pub fn iter() -> (kinds: Vec<BodyContent>)
        ensures
            kinds@ == Self::all(),
    {
        vec![
            BodyContent::NONE,
            BodyContent::FormData,
            BodyContent::FormURLEncoded,
            BodyContent::Json,
            BodyContent::Text,
            BodyContent::Html,
            BodyContent::Xml,
        ]
    }

    /// The names of the kinds in the order in which they are offered.
    pub fn as_string_vec() -> (names: Vec<String>)
        ensures
            strings_view(names@) == Self::all().map_values(|c: BodyContent| c.label()),
    {
        let kinds = Self::iter();
        let mut names: Vec<String> = Vec::new();
        let mut i: usize = 0;
        while i < kinds.len()
            invariant
                i <= kinds@.len(),
                kinds@ == Self::all(),
                strings_view(names@) == Self::all().take(i as int).map_values(
                    |c: BodyContent| c.label(),
                ),
            decreases kinds@.len() - i,
        {
            let name = kinds[i].to_string();
            proof {
                assert(strings_view(names@.push(name)) =~= Self::all().take(i + 1).map_values(
                    |c: BodyContent| c.label(),
                )) by {
                    assert(strings_view(names@).len() == i);
                    assert forall|j: int| 0 <= j < i implies strings_view(names@.push(name))[j]
                        == Self::all().take(i + 1).map_values(|c: BodyContent| c.label())[j] by {
                        assert(strings_view(names@)[j] == Self::all().take(i as int).map_values(
                            |c: BodyContent| c.label(),
                        )[j]);
                    }
                }
            }
            names.push(name);
            i = i + 1;
        }
        proof {
            assert(Self::all().take(i as int) =~= Self::all());
        }
        names
    }
}

/// The name of a kind of body names that kind.
pub proof fn lemma_body_content_round_trip(c: BodyContent)
    ensures
        BodyContent::parse(c.label()) == c,
{
    reveal_strlit("None");
    reveal_strlit("Form Data");
    reveal_strlit("Form URL-encoded");
    reveal_strlit("Text");
    reveal_strlit("Json");
    reveal_strlit("Html");
    reveal_strlit("Xml");
    assert("None"@.len() == 4 && "Form Data"@.len() == 9 && "Form URL-encoded"@.len() == 16);
    assert("Text"@[0] == 'T' && "Json"@[0] == 'J' && "Html"@[0] == 'H' && "Xml"@[0] == 'X'
        && "None"@[0] == 'N');
}

impl RawBodyContentType {
    /// The name shown for the kind.
    pub open spec fn label(self) -> Seq<char> {
        match self {
            RawBodyContentType::Text => "Text"@,
            RawBodyContentType::Json => "JSON"@,
            RawBodyContentType::Html => "HTML"@,
            RawBodyContentType::Xml => "XML"@,
        }
    }

    /// The kind that `input` names; `Text` where it names none.
    pub open spec fn parse(input: Seq<char>) -> Self {
        if input == "JSON"@ {
            RawBodyContentType::Json
        } else if input == "HTML"@ {
            RawBodyContentType::Html
        } else if input == "XML"@ {
            RawBodyContentType::Xml
        } else {
            RawBodyContentType::Text
        }
    }

    /// The kinds in the order in which they are offered.
    pub open spec fn all() -> Seq<RawBodyContentType> {
        seq![
            RawBodyContentType::Text,
            RawBodyContentType::Json,
            RawBodyContentType::Html,
            RawBodyContentType::Xml,
        ]
    }

    pub fn to_string(&self) -> (s: String)
        ensures
            s@ == self.label(),
    {
        match self {
            RawBodyContentType::Text => String::from_str("Text"),
            RawBodyContentType::Json => String::from_str("JSON"),
            RawBodyContentType::Html => String::from_str("HTML"),
            RawBodyContentType::Xml => String::from_str("XML"),
        }
    }

    pub fn from_string(input: String) -> (c: Self)
        ensures
            c == Self::parse(input@),
    {
        RawBodyContentType::from_str(input.as_str())
    }

    pub fn from_str(input: &str) -> (c: Self)
        ensures
            c == Self::parse(input@),
    {
        if same_chars(input, "JSON") {
            RawBodyContentType::Json
        } else if same_chars(input, "HTML") {
            RawBodyContentType::Html
        } else if same_chars(input, "XML") {
            RawBodyContentType::Xml
        } else {
            RawBodyContentType::Text
        }
    }

    /// The kinds in the order in which they are offered.
    pub fn iter() -> (kinds: Vec<RawBodyContentType>)
        ensures
            kinds@ == Self::all(),
    {
        vec![
            RawBodyContentType::Text,
            RawBodyContentType::Json,
            RawBodyContentType::Html,
            RawBodyContentType::Xml,
        ]
    }

    /// The names of the kinds in the order in which they are offered.
    pub fn as_string_vec() -> (names: Vec<String>)
        ensures
            strings_view(names@) == Self::all().map_values(|c: RawBodyContentType| c.label()),
    {
        let kinds = Self::iter();
        let mut names: Vec<String> = Vec::new();
        let mut i: usize = 0;
        while i < kinds.len()
            invariant
                i <= kinds@.len(),
                kinds@ == Self::all(),
                strings_view(names@) == Self::all().take(i as int).map_values(
                    |c: RawBodyContentType| c.label(),
                ),
            decreases kinds@.len() - i,
        {
            let name = kinds[i].to_string();
            proof {
                assert(strings_view(names@.push(name)) =~= Self::all().take(i + 1).map_values(
                    |c: RawBodyContentType| c.label(),
                )) by {
                    assert(strings_view(names@).len() == i);
                    assert forall|j: int| 0 <= j < i implies strings_view(names@.push(name))[j]
                        == Self::all().take(i + 1).map_values(
                        |c: RawBodyContentType| c.label(),
                    )[j] by {
                        assert(strings_view(names@)[j] == Self::all().take(i as int).map_values(
                            |c: RawBodyContentType| c.label(),
                        )[j]);
                    }
                }
            }
            names.push(name);
            i = i + 1;
        }
        proof {
            assert(Self::all().take(i as int) =~= Self::all());
        }
        names
    }
}

/// The name of a kind of raw body names that kind.
pub proof fn lemma_raw_body_content_round_trip(c: RawBodyContentType)
    ensures
        RawBodyContentType::parse(c.label()) == c,
{
    reveal_strlit("Text");
    reveal_strlit("JSON");
    reveal_strlit("HTML");
    reveal_strlit("XML");
    assert("Text"@[0] == 'T' && "JSON"@[0] == 'J' && "HTML"@[0] == 'H' && "XML"@[0] == 'X');
}

/// The body tab's state as plain values.
pub struct BodyView {
    pub active_body_element: BodyUIElement,
    pub body_content: BodyContent,
    pub body_content_sel_index: int,
    pub body_content_options: Seq<Seq<char>>,
    pub body_content_scroll_offset: int,
    pub raw_body_content: RawBodyContentType,
    pub raw_body_content_options: Seq<Seq<char>>,
    pub raw_body_content_sel_index: int,
    pub cursor_position: BodyCursorPosition,
    pub kv_data: Seq<KVDataView>,
    pub kv_tab_state: KVTabStateView,
    pub text_data: TextEditModel,
    pub disp_content_len: int,
}

impl BodyView {
    /// No body chosen, the closed list of kinds has the focus, one empty
    /// form field, an empty text.
    pub open spec fn initial() -> Self {
        BodyView {
            active_body_element: BodyUIElement::ContentType(false),
            body_content: BodyContent::NONE,
            body_content_sel_index: 0,
            body_content_options: BodyContent::all().map_values(|c: BodyContent| c.label()),
            body_content_scroll_offset: 0,
            raw_body_content: RawBodyContentType::Text,
            raw_body_content_options: RawBodyContentType::all().map_values(
                |c: RawBodyContentType| c.label(),
            ),
            raw_body_content_sel_index: 0,
            cursor_position: BodyCursorPosition::NONE,
            kv_data: seq![KVDataView::empty()],
            kv_tab_state: KVTabStateView::initial(),
            text_data: TextEditModel::initial(),
            disp_content_len: 5,
        }
    }
}

pub struct Body {
    active_body_element: BodyUIElement,
    /// The kind of body chosen.
    body_content: BodyContent,
    /// Index of the highlighted entry of the list of kinds.
    body_content_sel_index: u8,
    body_content_options: Vec<String>,
    body_content_scroll_offset: u8,
    raw_body_content: RawBodyContentType,
    raw_body_content_options: Vec<String>,
    /// Index of the highlighted entry of the list of raw kinds.
    raw_body_content_sel_index: u8,
    cursor_position: BodyCursorPosition,
    /// The form fields.
    kv_data: Vec<KVData>,
    kv_tab_state: KVTabState,
    /// The text of the body.
    text_data: TextEditState,
    /// Number of entries that an open list shows at a time.
    disp_content_len: u8,
}

impl View for Body {
    type V = BodyView;

    closed spec fn view(&self) -> BodyView {
        BodyView {
            active_body_element: self.active_body_element,
            body_content: self.body_content,
            body_content_sel_index: self.body_content_sel_index as int,
            body_content_options: strings_view(self.body_content_options@),
            body_content_scroll_offset: self.body_content_scroll_offset as int,
            raw_body_content: self.raw_body_content,
            raw_body_content_options: strings_view(self.raw_body_content_options@),
            raw_body_content_sel_index: self.raw_body_content_sel_index as int,
            cursor_position: self.cursor_position,
            kv_data: rows_view(self.kv_data@),
            kv_tab_state: self.kv_tab_state@,
            text_data: self.text_data@,
            disp_content_len: self.disp_content_len as int,
        }
    }
}

impl Clone for Body {
    fn clone(&self) -> (b: Self)
        ensures
            b@ == self@,
    {
        Body {
            active_body_element: self.active_body_element,
            body_content: self.body_content,
            body_content_sel_index: self.body_content_sel_index,
            body_content_options: copy_strings(&self.body_content_options),
            body_content_scroll_offset: self.body_content_scroll_offset,
            raw_body_content: self.raw_body_content,
            raw_body_content_options: copy_strings(&self.raw_body_content_options),
            raw_body_content_sel_index: self.raw_body_content_sel_index,
            cursor_position: self.cursor_position,
            kv_data: copy_rows(&self.kv_data),
            kv_tab_state: self.kv_tab_state,
            text_data: self.text_data.clone(),
            disp_content_len: self.disp_content_len,
        }
    }
}

impl Default for Body {
    fn default() -> (b: Self)
        ensures
            b@ == BodyView::initial(),
    {
        let mut kv_data: Vec<KVData> = Vec::new();
        kv_data.push(KVData::default());
        proof {
            assert(rows_view(kv_data@) =~= seq![KVDataView::empty()]);
        }
        Body {
            active_body_element: BodyUIElement::default(),
            body_content: BodyContent::default(),
            body_content_sel_index: 0,
            body_content_options: BodyContent::as_string_vec(),
            body_content_scroll_offset: 0,
            raw_body_content: RawBodyContentType::default(),
            raw_body_content_options: RawBodyContentType::as_string_vec(),
            raw_body_content_sel_index: 0,
            cursor_position: BodyCursorPosition::default(),
            kv_data,
            kv_tab_state: KVTabState::default(),
            text_data: TextEditState::default(),
            disp_content_len: 5,
        }
    }
}

impl Body {
    pub fn active_body_element(&self) -> (e: &BodyUIElement)
        ensures
            *e == self@.active_body_element,
    {
        &self.active_body_element
    }

    pub fn set_active_body_element(&mut self, active_body_el: BodyUIElement)
        ensures
            final(self)@ == (BodyView { active_body_element: active_body_el, ..old(self)@ }),
    {
        self.active_body_element = active_body_el;
    }

    pub fn body_content(&self) -> (c: &BodyContent)
        ensures
            *c == self@.body_content,
    {
        &self.body_content
    }

    pub fn set_body_content(&mut self, body_content: BodyContent)
        ensures
            final(self)@ == (BodyView { body_content, ..old(self)@ }),
    {
        self.body_content = body_content;
    }

    pub fn body_content_sel_index(&self) -> (i: &u8)
        ensures
            *i == self@.body_content_sel_index,
    {
        &self.body_content_sel_index
    }

    pub fn set_body_content_sel_index(&mut self, body_content_sel_index: u8)
        ensures
            final(self)@ == (BodyView {
                body_content_sel_index: body_content_sel_index as int,
                ..old(self)@
            }),
    {
        self.body_content_sel_index = body_content_sel_index;
    }

    pub fn body_content_options(&self) -> (options: Vec<String>)
        ensures
            strings_view(options@) == self@.body_content_options,
    {
        copy_strings(&self.body_content_options)
    }

    pub fn set_body_content_options(&mut self, body_content_options: Vec<String>)
        ensures
            final(self)@ == (BodyView {
                body_content_options: strings_view(body_content_options@),
                ..old(self)@
            }),
    {
        self.body_content_options = body_content_options;
    }

    pub fn raw_body_content(&self) -> (c: &RawBodyContentType)
        ensures
            *c == self@.raw_body_content,
    {
        &self.raw_body_content
    }

    pub fn set_raw_body_content(&mut self, raw_body_content: RawBodyContentType)
        ensures
            final(self)@ == (BodyView { raw_body_content, ..old(self)@ }),
    {
        self.raw_body_content = raw_body_content;
    }

    pub fn raw_body_content_options(&self) -> (options: Vec<String>)
        ensures
            strings_view(options@) == self@.raw_body_content_options,
    {
        copy_strings(&self.raw_body_content_options)
    }

    pub fn set_raw_body_content_options(&mut self, raw_body_content_options: Vec<String>)
        ensures
            final(self)@ == (BodyView {
                raw_body_content_options: strings_view(raw_body_content_options@),
                ..old(self)@
            }),
    {
        self.raw_body_content_options = raw_body_content_options;
    }

    pub fn raw_body_content_sel_index(&self) -> (i: &u8)
        ensures
            *i == self@.raw_body_content_sel_index,
    {
        &self.raw_body_content_sel_index
    }

    pub fn set_raw_body_content_sel_index(&mut self, raw_body_content_sel_index: u8)
        ensures
            final(self)@ == (BodyView {
                raw_body_content_sel_index: raw_body_content_sel_index as int,
                ..old(self)@
            }),
    {
        self.raw_body_content_sel_index = raw_body_content_sel_index;
    }

    pub fn cursor_position(&self) -> (p: &BodyCursorPosition)
        ensures
            *p == self@.cursor_position,
    {
        &self.cursor_position
    }

    pub fn set_cursor_position(&mut self, bcp: BodyCursorPosition)
        ensures
            final(self)@ == (BodyView { cursor_position: bcp, ..old(self)@ }),
    {
        self.cursor_position = bcp;
    }

    pub fn disp_content_len(&self) -> (n: &u8)
        ensures
            *n == self@.disp_content_len,
    {
        &self.disp_content_len
    }

    pub fn set_disp_content_len(&mut self, disp_content_len: u8)
        ensures
            final(self)@ == (BodyView { disp_content_len: disp_content_len as int, ..old(self)@ }),
    {
        self.disp_content_len = disp_content_len;
    }

    pub fn body_content_scroll_offset(&self) -> (o: &u8)
        ensures
            *o == self@.body_content_scroll_offset,
    {
        &self.body_content_scroll_offset
    }

    pub fn set_body_content_scroll_offset(&mut self, offset: u8)
        ensures
            final(self)@ == (BodyView { body_content_scroll_offset: offset as int, ..old(self)@ }),
    {
        self.body_content_scroll_offset = offset;
    }

    /// The form fields.
    pub fn kv_data(&self) -> (rows: &Vec<KVData>)
        ensures
            rows_view(rows@) == self@.kv_data,
    {
        &self.kv_data
    }

    /// Where the user stands among the form fields.
    pub fn kv_tab_state(&self) -> (s: &KVTabState)
        ensures
            s@ == self@.kv_tab_state,
    {
        &self.kv_tab_state
    }

    /// The text editor of the body.
    pub fn text_data(&self) -> (t: &TextEditState)
        ensures
            t@ == self@.text_data,
    {
        &self.text_data
    }

    /// Handles a key press on the table of form fields.
    pub fn handle_kv_key(&mut self, key: KVTabKey, ctrl_down: bool)
        ensures
            final(self)@ == (BodyView {
                kv_data: rows_after_key(
                    old(self)@.kv_data,
                    old(self)@.kv_tab_state,
                    key,
                    ctrl_down,
                    usize::MAX as int,
                ),
                kv_tab_state: state_after_key(
                    old(self)@.kv_data,
                    old(self)@.kv_tab_state,
                    key,
                    ctrl_down,
                ),
                ..old(self)@
            }),
    {
        handle_kv_tab_key(&mut self.kv_data, &mut self.kv_tab_state, key, ctrl_down, usize::MAX);
    }

    /// The form fields, to be changed in place.
    pub fn kv_data_mut(&mut self) -> (rows: &mut Vec<KVData>)
        ensures
            rows_view(rows@) == old(self)@.kv_data,
            final(self)@ == (BodyView { kv_data: rows_view(final(rows)@), ..old(self)@ }),
    {
        &mut self.kv_data
    }

    /// The place among the form fields, to be changed in place.
    pub fn kv_tab_state_mut(&mut self) -> (s: &mut KVTabState)
        ensures
            s@ == old(self)@.kv_tab_state,
            final(self)@ == (BodyView { kv_tab_state: final(s)@, ..old(self)@ }),
    {
        &mut self.kv_tab_state
    }

    /// The text editor of the body, to be changed in place.
    pub fn text_data_mut(&mut self) -> (t: &mut TextEditState)
        ensures
            t@ == old(self)@.text_data,
            final(self)@ == (BodyView { text_data: final(t)@, ..old(self)@ }),
    {
        &mut self.text_data
    }
}

} // verus!
