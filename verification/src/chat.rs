use crate::utils::{ascii_lowercase, lower_char, lower_text, push_char, str_eq};
use vstd::prelude::*;
use vstd::slice::slice_to_vec;
use vstd::string::StringExecFns;

verus! {

// chat
/// Rich text: a piece of text with its styles and colour, and further pieces
/// behind it that inherit both.
#[derive(Debug, PartialEq)]
pub struct Chat {
    pub text: String,
    pub bold: Option<bool>,
    pub italic: Option<bool>,
    pub underlined: Option<bool>,
    pub strikethrough: Option<bool>,
    pub obfuscated: Option<bool>,
    pub color: Option<String>,
    pub extra: Option<Vec<Chat>>,
}

fn clone_text(text: &Option<String>) -> (res: Option<String>)
    ensures
        match (text, res) {
            (Some(a), Some(b)) => a@ == b@,
            (None, None) => true,
            _ => false,
        },
{
    match text {
        Some(t) => Some(t.clone()),
        None => None,
    }
}

impl Clone for Chat {
    /// A copy with the same text, styles and colour, and copies of the further
    /// pieces.
    fn clone(&self) -> (res: Self)
        ensures
            res.text@ == self.text@,
            res.bold == self.bold,
            res.italic == self.italic,
            res.underlined == self.underlined,
            res.strikethrough == self.strikethrough,
            res.obfuscated == self.obfuscated,
        decreases self,
    {
        let extra = match &self.extra {
            Some(children) => {
                let mut copies: Vec<Chat> = Vec::new();
                let mut k: usize = 0;
                while k < children.len()
                    invariant
                        k <= children.len(),
                        self.extra == Some(*children),
                    decreases children.len() - k,
                {
                    proof {
                        assert(decreases_to!(*self => self.extra));
                        assert(decreases_to!(self.extra => self.extra->0));
                        assert(decreases_to!(*children => children[k as int]));
                    }
                    copies.push(children[k].clone());
                    k += 1;
                }
                Some(copies)
            },
            None => None,
        };
        Chat {
            text: self.text.clone(),
            bold: self.bold,
            italic: self.italic,
            underlined: self.underlined,
            strikethrough: self.strikethrough,
            obfuscated: self.obfuscated,
            color: clone_text(&self.color),
            extra,
        }
    }
}

/// The sign that announces a formatting code in the traditional form.
pub const SECTION_SYMBOL: char = '\u{a7}';

#[derive(PartialOrd, PartialEq, Eq, Structural, Debug, Copy, Clone)]
pub enum ColorCode {
    Black,
    DarkBlue,
    DarkGreen,
    DarkAqua,
    DarkRed,
    DarkPurple,
    Gold,
    Gray,
    DarkGray,
    Blue,
    Green,
    Aqua,
    Red,
    LightPurple,
    Yellow,
    White,
}

impl ColorCode {
    pub open spec fn spec_from_code(i: char) -> Option<Self> {
        if i == '0' {
            Some(ColorCode::Black)
        } else if i == '1' {
            Some(ColorCode::DarkBlue)
        } else if i == '2' {
            Some(ColorCode::DarkGreen)
        } else if i == '3' {
            Some(ColorCode::DarkAqua)
        } else if i == '4' {
            Some(ColorCode::DarkRed)
        } else if i == '5' {
            Some(ColorCode::DarkPurple)
        } else if i == '6' {
            Some(ColorCode::Gold)
        } else if i == '7' {
            Some(ColorCode::Gray)
        } else if i == '8' {
            Some(ColorCode::DarkGray)
        } else if i == '9' {
            Some(ColorCode::Blue)
        } else if i == 'a' {
            Some(ColorCode::Green)
        } else if i == 'b' {
            Some(ColorCode::Aqua)
        } else if i == 'c' {
            Some(ColorCode::Red)
        } else if i == 'd' {
            Some(ColorCode::LightPurple)
        } else if i == 'e' {
            Some(ColorCode::Yellow)
        } else if i == 'f' {
            Some(ColorCode::White)
        } else {
            None
        }
    }

    /// The colour that a code character stands for. Only the digits and the
    /// lower-case letters `a` to `f` are codes.
    pub fn from_code(i: &char) -> (res: Option<Self>)
        ensures
            res == Self::spec_from_code(*i),
    {
        match *i {
            '0' => Some(ColorCode::Black),
            '1' => Some(ColorCode::DarkBlue),
            '2' => Some(ColorCode::DarkGreen),
            '3' => Some(ColorCode::DarkAqua),
            '4' => Some(ColorCode::DarkRed),
            '5' => Some(ColorCode::DarkPurple),
            '6' => Some(ColorCode::Gold),
            '7' => Some(ColorCode::Gray),
            '8' => Some(ColorCode::DarkGray),
            '9' => Some(ColorCode::Blue),
            'a' => Some(ColorCode::Green),
            'b' => Some(ColorCode::Aqua),
            'c' => Some(ColorCode::Red),
            'd' => Some(ColorCode::LightPurple),
            'e' => Some(ColorCode::Yellow),
            'f' => Some(ColorCode::White),
            _ => None,
        }
    }

    pub open spec fn spec_to_code(&self) -> char {
        match self {
            ColorCode::Black => '0',
            ColorCode::DarkBlue => '1',
            ColorCode::DarkGreen => '2',
            ColorCode::DarkAqua => '3',
            ColorCode::DarkRed => '4',
            ColorCode::DarkPurple => '5',
            ColorCode::Gold => '6',
            ColorCode::Gray => '7',
            ColorCode::DarkGray => '8',
            ColorCode::Blue => '9',
            ColorCode::Green => 'a',
            ColorCode::Aqua => 'b',
            ColorCode::Red => 'c',
            ColorCode::LightPurple => 'd',
            ColorCode::Yellow => 'e',
            ColorCode::White => 'f',
        }
    }

    pub fn to_code(&self) -> (res: char)
        ensures
            res == self.spec_to_code(),
            Self::spec_from_code(res) == Some(*self),
    {
        match self {
            ColorCode::Black => '0',
            ColorCode::DarkBlue => '1',
            ColorCode::DarkGreen => '2',
            ColorCode::DarkAqua => '3',
            ColorCode::DarkRed => '4',
            ColorCode::DarkPurple => '5',
            ColorCode::Gold => '6',
            ColorCode::Gray => '7',
            ColorCode::DarkGray => '8',
            ColorCode::Blue => '9',
            ColorCode::Green => 'a',
            ColorCode::Aqua => 'b',
            ColorCode::Red => 'c',
            ColorCode::LightPurple => 'd',
            ColorCode::Yellow => 'e',
            ColorCode::White => 'f',
        }
    }

    /// The colour of a name that is already in lower case.
    pub open spec fn spec_named(lowered: Seq<char>) -> Option<Self> {
        if lowered == "black"@ {
            Some(ColorCode::Black)
        } else if lowered == "dark_blue"@ {
            Some(ColorCode::DarkBlue)
        } else if lowered == "dark_green"@ {
            Some(ColorCode::DarkGreen)
        } else if lowered == "dark_aqua"@ {
            Some(ColorCode::DarkAqua)
        } else if lowered == "dark_red"@ {
            Some(ColorCode::DarkRed)
        } else if lowered == "dark_purple"@ {
            Some(ColorCode::DarkPurple)
        } else if lowered == "gold"@ {
            Some(ColorCode::Gold)
        } else if lowered == "gray"@ {
            Some(ColorCode::Gray)
        } else if lowered == "dark_gray"@ {
            Some(ColorCode::DarkGray)
        } else if lowered == "blue"@ {
            Some(ColorCode::Blue)
        } else if lowered == "green"@ {
            Some(ColorCode::Green)
        } else if lowered == "aqua"@ {
            Some(ColorCode::Aqua)
        } else if lowered == "red"@ {
            Some(ColorCode::Red)
        } else if lowered == "light_purple"@ {
            Some(ColorCode::LightPurple)
        } else if lowered == "yellow"@ {
            Some(ColorCode::Yellow)
        } else if lowered == "white"@ {
            Some(ColorCode::White)
        } else {
            None
        }
    }

    /// The colour of a name, whatever the case of its letters.
    pub open spec fn spec_from_name(name: Seq<char>) -> Option<Self> {
        Self::spec_named(lower_text(name))
    }

    pub fn from_name(name: &str) -> (res: Option<Self>)
        ensures
            res == Self::spec_from_name(name@),
    {
        let lowered = ascii_lowercase(name);
        let lowered = lowered.as_str();
        if str_eq(lowered, "black") {
            Some(ColorCode::Black)
        } else if str_eq(lowered, "dark_blue") {
            Some(ColorCode::DarkBlue)
        } else if str_eq(lowered, "dark_green") {
            Some(ColorCode::DarkGreen)
        } else if str_eq(lowered, "dark_aqua") {
            Some(ColorCode::DarkAqua)
        } else if str_eq(lowered, "dark_red") {
            Some(ColorCode::DarkRed)
        } else if str_eq(lowered, "dark_purple") {
            Some(ColorCode::DarkPurple)
        } else if str_eq(lowered, "gold") {
            Some(ColorCode::Gold)
        } else if str_eq(lowered, "gray") {
            Some(ColorCode::Gray)
        } else if str_eq(lowered, "dark_gray") {
            Some(ColorCode::DarkGray)
        } else if str_eq(lowered, "blue") {
            Some(ColorCode::Blue)
        } else if str_eq(lowered, "green") {
            Some(ColorCode::Green)
        } else if str_eq(lowered, "aqua") {
            Some(ColorCode::Aqua)
        } else if str_eq(lowered, "red") {
            Some(ColorCode::Red)
        } else if str_eq(lowered, "light_purple") {
            Some(ColorCode::LightPurple)
        } else if str_eq(lowered, "yellow") {
            Some(ColorCode::Yellow)
        } else if str_eq(lowered, "white") {
            Some(ColorCode::White)
        } else {
            None
        }
    }

    pub open spec fn spec_name(&self) -> Seq<char> {
        match self {
            ColorCode::Black => "black"@,
            ColorCode::DarkBlue => "dark_blue"@,
            ColorCode::DarkGreen => "dark_green"@,
            ColorCode::DarkAqua => "dark_aqua"@,
            ColorCode::DarkRed => "dark_red"@,
            ColorCode::DarkPurple => "dark_purple"@,
            ColorCode::Gold => "gold"@,
            ColorCode::Gray => "gray"@,
            ColorCode::DarkGray => "dark_gray"@,
            ColorCode::Blue => "blue"@,
            ColorCode::Green => "green"@,
            ColorCode::Aqua => "aqua"@,
            ColorCode::Red => "red"@,
            ColorCode::LightPurple => "light_purple"@,
            ColorCode::Yellow => "yellow"@,
            ColorCode::White => "white"@,
        }
    }

    pub fn name(&self) -> (res: &str)
        ensures
            res@ == self.spec_name(),
    {
        match self {
            ColorCode::Black => "black",
            ColorCode::DarkBlue => "dark_blue",
            ColorCode::DarkGreen => "dark_green",
            ColorCode::DarkAqua => "dark_aqua",
            ColorCode::DarkRed => "dark_red",
            ColorCode::DarkPurple => "dark_purple",
            ColorCode::Gold => "gold",
            ColorCode::Gray => "gray",
            ColorCode::DarkGray => "dark_gray",
            ColorCode::Blue => "blue",
            ColorCode::Green => "green",
            ColorCode::Aqua => "aqua",
            ColorCode::Red => "red",
            ColorCode::LightPurple => "light_purple",
            ColorCode::Yellow => "yellow",
            ColorCode::White => "white",
        }
    }
}

#[derive(PartialOrd, PartialEq, Eq, Structural, Debug, Copy, Clone)]
pub enum Formatter {
    Color(ColorCode),
    Obfuscated,
    Bold,
    Strikethrough,
    Underline,
    Italic,
    Reset,
}

impl Formatter {
    /// A style code counts in either case; a colour code only as it stands.
    pub open spec fn spec_from_code(i: char) -> Option<Self> {
        if lower_char(i) == 'k' {
            Some(Formatter::Obfuscated)
        } else if lower_char(i) == 'l' {
            Some(Formatter::Bold)
        } else if lower_char(i) == 'm' {
            Some(Formatter::Strikethrough)
        } else if lower_char(i) == 'n' {
            Some(Formatter::Underline)
        } else if lower_char(i) == 'o' {
            Some(Formatter::Italic)
        } else if lower_char(i) == 'r' {
            Some(Formatter::Reset)
        } else {
            match ColorCode::spec_from_code(i) {
                Some(color) => Some(Formatter::Color(color)),
                None => None,
            }
        }
    }

    pub fn from_code(i: &char) -> (res: Option<Self>)
        ensures
            res == Self::spec_from_code(*i),
    {
        match char_to_ascii_lowercase(*i) {
            'k' => Some(Formatter::Obfuscated),
            'l' => Some(Formatter::Bold),
            'm' => Some(Formatter::Strikethrough),
            'n' => Some(Formatter::Underline),
            'o' => Some(Formatter::Italic),
            'r' => Some(Formatter::Reset),
            _ => match ColorCode::from_code(i) {
                Some(color) => Some(Formatter::Color(color)),
                None => None,
            },
        }
    }

    pub open spec fn spec_code(&self) -> char {
        match self {
            Formatter::Color(c) => c.spec_to_code(),
            Formatter::Obfuscated => 'k',
            Formatter::Bold => 'l',
            Formatter::Strikethrough => 'm',
            Formatter::Underline => 'n',
            Formatter::Italic => 'o',
            Formatter::Reset => 'r',
        }
    }

    pub fn code(&self) -> (res: char)
        ensures
            res == self.spec_code(),
            Self::spec_from_code(res) == Some(*self),
    {
        match self {
            Formatter::Color(c) => c.to_code(),
            Formatter::Obfuscated => 'k',
            Formatter::Bold => 'l',
            Formatter::Strikethrough => 'm',
            Formatter::Underline => 'n',
            Formatter::Italic => 'o',
            Formatter::Reset => 'r',
        }
    }

    pub open spec fn spec_from_name(name: Seq<char>) -> Option<Self> {
        if lower_text(name) == "obfuscated"@ {
            Some(Formatter::Obfuscated)
        } else if lower_text(name) == "bold"@ {
            Some(Formatter::Bold)
        } else if lower_text(name) == "strikethrough"@ {
            Some(Formatter::Strikethrough)
        } else if lower_text(name) == "underline"@ {
            Some(Formatter::Underline)
        } else if lower_text(name) == "italic"@ {
            Some(Formatter::Italic)
        } else if lower_text(name) == "reset"@ {
            Some(Formatter::Reset)
        } else {
            match ColorCode::spec_from_name(name) {
                Some(color) => Some(Formatter::Color(color)),
                None => None,
            }
        }
    }

    /// The style or colour of a name, whatever the case of its letters.
    pub fn from_name(name: &str) -> (res: Option<Self>)
        ensures
            res == Self::spec_from_name(name@),
    {
        let lowered = ascii_lowercase(name);
        let lowered = lowered.as_str();
        if str_eq(lowered, "obfuscated") {
            Some(Formatter::Obfuscated)
        } else if str_eq(lowered, "bold") {
            Some(Formatter::Bold)
        } else if str_eq(lowered, "strikethrough") {
            Some(Formatter::Strikethrough)
        } else if str_eq(lowered, "underline") {
            Some(Formatter::Underline)
        } else if str_eq(lowered, "italic") {
            Some(Formatter::Italic)
        } else if str_eq(lowered, "reset") {
            Some(Formatter::Reset)
        } else {
            match ColorCode::from_name(name) {
                Some(color) => Some(Formatter::Color(color)),
                None => None,
            }
        }
    }

    pub open spec fn spec_name(&self) -> Seq<char> {
        match self {
            Formatter::Obfuscated => "obfuscated"@,
            Formatter::Bold => "bold"@,
            Formatter::Strikethrough => "strikethrough"@,
            Formatter::Underline => "underline"@,
            Formatter::Italic => "italic"@,
            Formatter::Reset => "reset"@,
            Formatter::Color(c) => c.spec_name(),
        }
    }

    pub fn name(&self) -> (res: &str)
        ensures
            res@ == self.spec_name(),
    {
        match self {
            Formatter::Obfuscated => "obfuscated",
            Formatter::Bold => "bold",
            Formatter::Strikethrough => "strikethrough",
            Formatter::Underline => "underline",
            Formatter::Italic => "italic",
            Formatter::Reset => "reset",
            Formatter::Color(c) => c.name(),
        }
    }

    /// The section sign and the code.
    pub open spec fn spec_text(&self) -> Seq<char> {
        seq![SECTION_SYMBOL, self.spec_code()]
    }

    pub fn to_string(&self) -> (res: String)
        ensures
            res@ == self.spec_text(),
    {
        let mut out = String::new();
        push_char(&mut out, SECTION_SYMBOL);
        push_char(&mut out, self.code());
        proof {
            assert(out@ =~= self.spec_text());
        }
        out
    }
}

/// An ASCII capital as its small letter; any other character as it is.
pub fn char_to_ascii_lowercase(c: char) -> (res: char)
    ensures
        res == lower_char(c),
{
    if 'A' <= c && c <= 'Z' {
        ((c as u8) + 32) as char
    } else {
        c
    }
}

/// The styles in force after one more is switched on, if it is switched on
/// and is not in force already.
pub open spec fn with_formatter(to: Seq<Formatter>, formatter: Formatter, v: Option<bool>) -> Seq<
    Formatter,
> {
    if !to.contains(formatter) && v == Some(true) {
        to.push(formatter)
    } else {
        to
    }
}

/// The styles in force on a piece of text: those it inherits, then its own,
/// in the order bold, italic, underline, strikethrough, obfuscated.
pub open spec fn own_formatters(chat: Chat, inherited: Seq<Formatter>) -> Seq<Formatter> {
    with_formatter(
        with_formatter(
            with_formatter(
                with_formatter(
                    with_formatter(inherited, Formatter::Bold, chat.bold),
                    Formatter::Italic,
                    chat.italic,
                ),
                Formatter::Underline,
                chat.underlined,
            ),
            Formatter::Strikethrough,
            chat.strikethrough,
        ),
        Formatter::Obfuscated,
        chat.obfuscated,
    )
}

/// The colour of a piece of text: its own where it names one that exists,
/// else the one it inherits.
pub open spec fn own_color(chat: Chat, inherited: Option<ColorCode>) -> Option<ColorCode> {
    match chat.color {
        Some(name) => match ColorCode::spec_from_name(name@) {
            Some(color) => Some(color),
            None => inherited,
        },
        None => inherited,
    }
}

/// The codes of a list of styles, one behind the other.
pub open spec fn formatters_text(formatters: Seq<Formatter>) -> Seq<char>
    decreases formatters.len(),
{
    if formatters.len() == 0 {
        Seq::empty()
    } else {
        formatters_text(formatters.drop_last()) + formatters.last().spec_text()
    }
}

pub open spec fn color_text(color: Option<ColorCode>) -> Seq<char> {
    match color {
        Some(c) => Formatter::Color(c).spec_text(),
        None => Seq::empty(),
    }
}

/// A piece of rich text in the traditional form: the codes of its styles, the
/// code of its colour, its text, and then each of its further pieces in the
/// same way, under the styles and the colour of this one.
pub open spec fn traditional_text(
    chat: Chat,
    formatters: Seq<Formatter>,
    color: Option<ColorCode>,
) -> Seq<char>
    decreases chat,
{
    formatters_text(own_formatters(chat, formatters)) + color_text(own_color(chat, color))
        + chat.text@ + (match chat.extra {
        Some(children) => traditional_children(
            children@,
            own_formatters(chat, formatters),
            own_color(chat, color),
        ),
        None => Seq::empty(),
    })
}

pub open spec fn traditional_children(
    children: Seq<Chat>,
    formatters: Seq<Formatter>,
    color: Option<ColorCode>,
) -> Seq<char>
    decreases children,
{
    if children.len() == 0 {
        Seq::empty()
    } else {
        traditional_children(children.drop_last(), formatters, color) + traditional_text(
            children.last(),
            formatters,
            color,
        )
    }
}

/// The text alone, of a piece and of all its further pieces.
pub open spec fn plain_text(chat: Chat) -> Seq<char>
    decreases chat,
{
    chat.text@ + (match chat.extra {
        Some(children) => plain_children(children@),
        None => Seq::empty(),
    })
}

pub open spec fn plain_children(children: Seq<Chat>) -> Seq<char>
    decreases children,
{
    if children.len() == 0 {
        Seq::empty()
    } else {
        plain_children(children.drop_last()) + plain_text(children.last())
    }
}

fn contains_formatter(to: &Vec<Formatter>, formatter: Formatter) -> (res: bool)
    ensures
        res == to@.contains(formatter),
{
    let mut i: usize = 0;
    while i < to.len()
        invariant
            i <= to.len(),
            forall|k: int| 0 <= k < i ==> to@[k] != formatter,
        decreases to.len() - i,
    {
        if to[i] == formatter {
            return true;
        }
        i += 1;
    }
    false
}

impl Chat {
    /// The text in the traditional form, with a section sign and a code for
    /// every style and colour.
    pub fn to_traditional(&self) -> (res: String)
        ensures
            res@ == traditional_text(*self, Seq::empty(), None),
    {
        let formatters: Vec<Formatter> = Vec::new();
        self.to_traditional_parts(&formatters, None)
    }

    pub fn to_traditional_parts(&self, formatters: &Vec<Formatter>, color: Option<ColorCode>)
        -> (res:
        String)
        ensures
            res@ == traditional_text(*self, formatters@, color),
        decreases self,
    {
        let mut own_formatters = slice_to_vec(formatters.as_slice());
        Self::update_formatter(&mut own_formatters, Formatter::Bold, &self.bold);
        Self::update_formatter(&mut own_formatters, Formatter::Italic, &self.italic);
        Self::update_formatter(&mut own_formatters, Formatter::Underline, &self.underlined);
        Self::update_formatter(&mut own_formatters, Formatter::Strikethrough, &self.strikethrough);
        Self::update_formatter(&mut own_formatters, Formatter::Obfuscated, &self.obfuscated);
        let own_color_option = match &self.color {
            Some(name) => match ColorCode::from_name(name.as_str()) {
                Some(own) => Some(own),
                None => color,
            },
            None => color,
        };
        let mut out = String::new();
        let mut i: usize = 0;
        proof {
            assert(own_formatters@.take(0) =~= Seq::<Formatter>::empty());
        }
        while i < own_formatters.len()
            invariant
                i <= own_formatters.len(),
                out@ == formatters_text(own_formatters@.take(i as int)),
            decreases own_formatters.len() - i,
        {
            let code = own_formatters[i].to_string();
            out.append(code.as_str());
            proof {
                let upto = own_formatters@.take(i as int + 1);
                assert(upto.drop_last() =~= own_formatters@.take(i as int));
            }
            i += 1;
        }
        proof {
            assert(own_formatters@.take(own_formatters.len() as int) =~= own_formatters@);
        }
        match own_color_option {
            Some(own) => {
                let code = Formatter::Color(own).to_string();
                out.append(code.as_str());
            },
            None => {
                proof {
                    assert(out@ + Seq::<char>::empty() =~= out@);
                }
            },
        }
        out.append(self.text.as_str());
        let ghost head = out@;
        match &self.extra {
            Some(children) => {
                let mut k: usize = 0;
                proof {
                    assert(children@.take(0) =~= Seq::<Chat>::empty());
                    assert(head + Seq::<char>::empty() =~= head);
                }
                while k < children.len()
                    invariant
                        k <= children.len(),
                        self.extra == Some(*children),
                        out@ == head + traditional_children(
                            children@.take(k as int),
                            own_formatters@,
                            own_color_option,
                        ),
                    decreases children.len() - k,
                {
                    proof {
                        assert(decreases_to!(*self => self.extra));
                        assert(decreases_to!(self.extra => self.extra->0));
                        assert(decreases_to!(*children => children[k as int]));
                    }
                    let part = children[k].to_traditional_parts(&own_formatters, own_color_option);
                    out.append(part.as_str());
                    proof {
                        let upto = children@.take(k as int + 1);
                        assert(upto.drop_last() =~= children@.take(k as int));
                        assert(head + traditional_children(
                            children@.take(k as int),
                            own_formatters@,
                            own_color_option,
                        ) + part@ =~= head + (traditional_children(
                            children@.take(k as int),
                            own_formatters@,
                            own_color_option,
                        ) + part@));
                    }
                    k += 1;
                }
                proof {
                    assert(children@.take(children.len() as int) =~= children@);
                }
            },
            None => {
                proof {
                    assert(head + Seq::<char>::empty() =~= head);
                }
            },
        }
        out
    }

    pub fn update_formatter(to: &mut Vec<Formatter>, formatter: Formatter, v: &Option<bool>)
        ensures
            final(to)@ == with_formatter(old(to)@, formatter, *v),
    {
        let wanted = match v {
            Some(b) => *b,
            None => false,
        };
        if !contains_formatter(to, formatter) && wanted {
            to.push(formatter)
        }
    }

    /// The text alone, without styles or colours.
    pub fn to_string(&self) -> (res: String)
        ensures
            res@ == plain_text(*self),
        decreases self,
    {
        let mut out = String::new();
        out.append(self.text.as_str());
        let ghost head = out@;
        match &self.extra {
            Some(children) => {
                let mut k: usize = 0;
                proof {
                    assert(children@.take(0) =~= Seq::<Chat>::empty());
                    assert(head + Seq::<char>::empty() =~= head);
                }
                while k < children.len()
                    invariant
                        k <= children.len(),
                        self.extra == Some(*children),
                        out@ == head + plain_children(children@.take(k as int)),
                    decreases children.len() - k,
                {
                    proof {
                        assert(decreases_to!(*self => self.extra));
                        assert(decreases_to!(self.extra => self.extra->0));
                        assert(decreases_to!(*children => children[k as int]));
                    }
                    let part = children[k].to_string();
                    out.append(part.as_str());
                    proof {
                        let upto = children@.take(k as int + 1);
                        assert(upto.drop_last() =~= children@.take(k as int));
                        assert(head + plain_children(children@.take(k as int)) + part@ =~= head + (
                        plain_children(children@.take(k as int)) + part@));
                    }
                    k += 1;
                }
                proof {
                    assert(children@.take(children.len() as int) =~= children@);
                }
            },
            None => {
                proof {
                    assert(head + Seq::<char>::empty() =~= head);
                }
            },
        }
        out
    }
}

} // verus!
