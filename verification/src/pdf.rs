//! The catalog of render settings and the coercion of JSON values to them.

use crate::error::AnyError;
use crate::helpers::same_text;
use crate::json::JsonData;
use crate::json::JsonDataView;
use crate::json::JsonValue;
use crate::json::JsonValueView;
use vstd::prelude::*;
use vstd::string::*;

verus! {

/// The type that a render setting declares for its value.
#[derive(Debug, Clone, Copy, PartialEq, Eq, Structural)]
pub enum PdfSettingType {
    ValueString,
    ValueBool,
    ValueInt,
    ValueUint,
    ValueFloat,
}

/// One entry of a catalog: the scope it belongs to (`Global` for the
/// document, `Object` for a page object), its key and the declared type.
#[derive(Debug, Clone, Copy)]
pub struct PdfSetting {
    pub scope: &'static str,
    pub key: &'static str,
    pub value_type: PdfSettingType,
}

/// The name of a declared type, as error messages show it.
pub open spec fn declared_type_name(value_type: PdfSettingType) -> Seq<char> {
    match value_type {
        PdfSettingType::ValueString => "ValueString"@,
        PdfSettingType::ValueBool => "ValueBool"@,
        PdfSettingType::ValueInt => "ValueInt"@,
        PdfSettingType::ValueUint => "ValueUint"@,
        PdfSettingType::ValueFloat => "ValueFloat"@,
    }
}

impl PdfSettingType {
    /// The name of the type, as error messages show it.
    pub fn name(&self) -> (text: &'static str)
        ensures
            text@ == declared_type_name(*self),
    {
        match self {
            PdfSettingType::ValueString => "ValueString",
            PdfSettingType::ValueBool => "ValueBool",
            PdfSettingType::ValueInt => "ValueInt",
            PdfSettingType::ValueUint => "ValueUint",
            PdfSettingType::ValueFloat => "ValueFloat",
        }
    }
}

/// The declared type of each document-wide setting; nothing for a key that
/// the catalog does not hold.
pub open spec fn global_setting_type(key: Seq<char>) -> Option<PdfSettingType> {
    if key == "size.pageSize"@ {
        Some(PdfSettingType::ValueString)
    } else if key == "size.width"@ {
        Some(PdfSettingType::ValueString)
    } else if key == "size.height"@ {
        Some(PdfSettingType::ValueString)
    } else if key == "orientation"@ {
        Some(PdfSettingType::ValueString)
    } else if key == "colorMode"@ {
        Some(PdfSettingType::ValueString)
    } else if key == "dpi"@ {
        Some(PdfSettingType::ValueUint)
    } else if key == "pageOffset"@ {
        Some(PdfSettingType::ValueInt)
    } else if key == "copies"@ {
        Some(PdfSettingType::ValueUint)
    } else if key == "collate"@ {
        Some(PdfSettingType::ValueBool)
    } else if key == "outline"@ {
        Some(PdfSettingType::ValueBool)
    } else if key == "outlineDepth"@ {
        Some(PdfSettingType::ValueUint)
    } else if key == "dumpOutline"@ {
        Some(PdfSettingType::ValueString)
    } else if key == "out"@ {
        Some(PdfSettingType::ValueString)
    } else if key == "documentTitle"@ {
        Some(PdfSettingType::ValueString)
    } else if key == "useCompression"@ {
        Some(PdfSettingType::ValueBool)
    } else if key == "margin.top"@ {
        Some(PdfSettingType::ValueString)
    } else if key == "margin.bottom"@ {
        Some(PdfSettingType::ValueString)
    } else if key == "margin.left"@ {
        Some(PdfSettingType::ValueString)
    } else if key == "margin.right"@ {
        Some(PdfSettingType::ValueString)
    } else if key == "imageDPI"@ {
        Some(PdfSettingType::ValueUint)
    } else if key == "imageQuality"@ {
        Some(PdfSettingType::ValueUint)
    } else if key == "load.cookieJar"@ {
        Some(PdfSettingType::ValueString)
    } else {
        None
    }
}

/// The declared type of each page-object setting; nothing for a key that the
/// catalog does not hold.
pub open spec fn object_setting_type(key: Seq<char>) -> Option<PdfSettingType> {
    if key == "page"@ {
        Some(PdfSettingType::ValueString)
    } else if key == "useExternalLinks"@ {
        Some(PdfSettingType::ValueBool)
    } else if key == "useLocalLinks"@ {
        Some(PdfSettingType::ValueBool)
    } else if key == "produceForms"@ {
        Some(PdfSettingType::ValueBool)
    } else if key == "includeInOutline"@ {
        Some(PdfSettingType::ValueBool)
    } else if key == "pagesCount"@ {
        Some(PdfSettingType::ValueBool)
    } else if key == "toc.useDottedLines"@ {
        Some(PdfSettingType::ValueBool)
    } else if key == "toc.captionText"@ {
        Some(PdfSettingType::ValueString)
    } else if key == "toc.forwardLinks"@ {
        Some(PdfSettingType::ValueBool)
    } else if key == "toc.backLinks"@ {
        Some(PdfSettingType::ValueBool)
    } else if key == "toc.indentation"@ {
        Some(PdfSettingType::ValueString)
    } else if key == "toc.fontScale"@ {
        Some(PdfSettingType::ValueFloat)
    } else if key == "header.fontName"@ {
        Some(PdfSettingType::ValueString)
    } else if key == "header.fontSize"@ {
        Some(PdfSettingType::ValueString)
    } else if key == "header.left"@ {
        Some(PdfSettingType::ValueString)
    } else if key == "header.center"@ {
        Some(PdfSettingType::ValueString)
    } else if key == "header.right"@ {
        Some(PdfSettingType::ValueString)
    } else if key == "header.line"@ {
        Some(PdfSettingType::ValueBool)
    } else if key == "header.spacing"@ {
        Some(PdfSettingType::ValueFloat)
    } else if key == "header.htmlUrl"@ {
        Some(PdfSettingType::ValueString)
    } else if key == "footer.fontName"@ {
        Some(PdfSettingType::ValueString)
    } else if key == "footer.fontSize"@ {
        Some(PdfSettingType::ValueString)
    } else if key == "footer.left"@ {
        Some(PdfSettingType::ValueString)
    } else if key == "footer.center"@ {
        Some(PdfSettingType::ValueString)
    } else if key == "footer.right"@ {
        Some(PdfSettingType::ValueString)
    } else if key == "footer.line"@ {
        Some(PdfSettingType::ValueBool)
    } else if key == "footer.spacing"@ {
        Some(PdfSettingType::ValueFloat)
    } else if key == "footer.htmlUrl"@ {
        Some(PdfSettingType::ValueString)
    } else if key == "load.username"@ {
        Some(PdfSettingType::ValueString)
    } else if key == "load.password"@ {
        Some(PdfSettingType::ValueString)
    } else if key == "load.jsdelay"@ {
        Some(PdfSettingType::ValueUint)
    } else if key == "load.windowStatus"@ {
        Some(PdfSettingType::ValueString)
    } else if key == "load.zoomFactor"@ {
        Some(PdfSettingType::ValueString)
    } else if key == "load.blockLocalFileAccess"@ {
        Some(PdfSettingType::ValueString)
    } else if key == "load.stopSlowScripts"@ {
        Some(PdfSettingType::ValueBool)
    } else if key == "load.loadErrorHandling"@ {
        Some(PdfSettingType::ValueString)
    } else if key == "load.proxy"@ {
        Some(PdfSettingType::ValueString)
    } else if key == "web.background"@ {
        Some(PdfSettingType::ValueBool)
    } else if key == "web.loadImages"@ {
        Some(PdfSettingType::ValueBool)
    } else if key == "web.enableJavascript"@ {
        Some(PdfSettingType::ValueBool)
    } else if key == "web.enableIntelligentShrinking"@ {
        Some(PdfSettingType::ValueBool)
    } else if key == "web.minimumFontSize"@ {
        Some(PdfSettingType::ValueUint)
    } else if key == "web.defaultEncoding"@ {
        Some(PdfSettingType::ValueString)
    } else if key == "web.printMediaType"@ {
        Some(PdfSettingType::ValueBool)
    } else if key == "web.userStyleSheet"@ {
        Some(PdfSettingType::ValueString)
    } else if key == "web.enablePlugins"@ {
        Some(PdfSettingType::ValueBool)
    } else {
        None
    }
}

/// Looks `key` up in the catalog of document-wide settings.
pub fn pdf_global_setting(key: &str) -> (found: Option<PdfSetting>)
    ensures
        found is Some <==> global_setting_type(key@) is Some,
        found matches Some(setting) ==> setting.scope@ == "Global"@ && setting.key@ == key@
            && Some(setting.value_type) == global_setting_type(key@),
{
    if same_text(key, "size.pageSize") {
        Some(PdfSetting { scope: "Global", key: "size.pageSize", value_type: PdfSettingType::ValueString })
    } else if same_text(key, "size.width") {
        Some(PdfSetting { scope: "Global", key: "size.width", value_type: PdfSettingType::ValueString })
    } else if same_text(key, "size.height") {
        Some(PdfSetting { scope: "Global", key: "size.height", value_type: PdfSettingType::ValueString })
    } else if same_text(key, "orientation") {
        Some(PdfSetting { scope: "Global", key: "orientation", value_type: PdfSettingType::ValueString })
    } else if same_text(key, "colorMode") {
        Some(PdfSetting { scope: "Global", key: "colorMode", value_type: PdfSettingType::ValueString })
    } else if same_text(key, "dpi") {
        Some(PdfSetting { scope: "Global", key: "dpi", value_type: PdfSettingType::ValueUint })
    } else if same_text(key, "pageOffset") {
        Some(PdfSetting { scope: "Global", key: "pageOffset", value_type: PdfSettingType::ValueInt })
    } else if same_text(key, "copies") {
        Some(PdfSetting { scope: "Global", key: "copies", value_type: PdfSettingType::ValueUint })
    } else if same_text(key, "collate") {
        Some(PdfSetting { scope: "Global", key: "collate", value_type: PdfSettingType::ValueBool })
    } else if same_text(key, "outline") {
        Some(PdfSetting { scope: "Global", key: "outline", value_type: PdfSettingType::ValueBool })
    } else if same_text(key, "outlineDepth") {
        Some(PdfSetting { scope: "Global", key: "outlineDepth", value_type: PdfSettingType::ValueUint })
    } else if same_text(key, "dumpOutline") {
        Some(PdfSetting { scope: "Global", key: "dumpOutline", value_type: PdfSettingType::ValueString })
    } else if same_text(key, "out") {
        Some(PdfSetting { scope: "Global", key: "out", value_type: PdfSettingType::ValueString })
    } else if same_text(key, "documentTitle") {
        Some(PdfSetting { scope: "Global", key: "documentTitle", value_type: PdfSettingType::ValueString })
    } else if same_text(key, "useCompression") {
        Some(PdfSetting { scope: "Global", key: "useCompression", value_type: PdfSettingType::ValueBool })
    } else if same_text(key, "margin.top") {
        Some(PdfSetting { scope: "Global", key: "margin.top", value_type: PdfSettingType::ValueString })
    } else if same_text(key, "margin.bottom") {
        Some(PdfSetting { scope: "Global", key: "margin.bottom", value_type: PdfSettingType::ValueString })
    } else if same_text(key, "margin.left") {
        Some(PdfSetting { scope: "Global", key: "margin.left", value_type: PdfSettingType::ValueString })
    } else if same_text(key, "margin.right") {
        Some(PdfSetting { scope: "Global", key: "margin.right", value_type: PdfSettingType::ValueString })
    } else if same_text(key, "imageDPI") {
        Some(PdfSetting { scope: "Global", key: "imageDPI", value_type: PdfSettingType::ValueUint })
    } else if same_text(key, "imageQuality") {
        Some(PdfSetting { scope: "Global", key: "imageQuality", value_type: PdfSettingType::ValueUint })
    } else if same_text(key, "load.cookieJar") {
        Some(PdfSetting { scope: "Global", key: "load.cookieJar", value_type: PdfSettingType::ValueString })
    } else {
        None
    }
}

/// Looks `key` up in the catalog of page-object settings.
pub fn pdf_object_setting(key: &str) -> (found: Option<PdfSetting>)
    ensures
        found is Some <==> object_setting_type(key@) is Some,
        found matches Some(setting) ==> setting.scope@ == "Object"@ && setting.key@ == key@
            && Some(setting.value_type) == object_setting_type(key@),
{
    if same_text(key, "page") {
        Some(PdfSetting { scope: "Object", key: "page", value_type: PdfSettingType::ValueString })
    } else if same_text(key, "useExternalLinks") {
        Some(PdfSetting { scope: "Object", key: "useExternalLinks", value_type: PdfSettingType::ValueBool })
    } else if same_text(key, "useLocalLinks") {
        Some(PdfSetting { scope: "Object", key: "useLocalLinks", value_type: PdfSettingType::ValueBool })
    } else if same_text(key, "produceForms") {
        Some(PdfSetting { scope: "Object", key: "produceForms", value_type: PdfSettingType::ValueBool })
    } else if same_text(key, "includeInOutline") {
        Some(PdfSetting { scope: "Object", key: "includeInOutline", value_type: PdfSettingType::ValueBool })
    } else if same_text(key, "pagesCount") {
        Some(PdfSetting { scope: "Object", key: "pagesCount", value_type: PdfSettingType::ValueBool })
    } else if same_text(key, "toc.useDottedLines") {
        Some(PdfSetting { scope: "Object", key: "toc.useDottedLines", value_type: PdfSettingType::ValueBool })
    } else if same_text(key, "toc.captionText") {
        Some(PdfSetting { scope: "Object", key: "toc.captionText", value_type: PdfSettingType::ValueString })
    } else if same_text(key, "toc.forwardLinks") {
        Some(PdfSetting { scope: "Object", key: "toc.forwardLinks", value_type: PdfSettingType::ValueBool })
    } else if same_text(key, "toc.backLinks") {
        Some(PdfSetting { scope: "Object", key: "toc.backLinks", value_type: PdfSettingType::ValueBool })
    } else if same_text(key, "toc.indentation") {
        Some(PdfSetting { scope: "Object", key: "toc.indentation", value_type: PdfSettingType::ValueString })
    } else if same_text(key, "toc.fontScale") {
        Some(PdfSetting { scope: "Object", key: "toc.fontScale", value_type: PdfSettingType::ValueFloat })
    } else if same_text(key, "header.fontName") {
        Some(PdfSetting { scope: "Object", key: "header.fontName", value_type: PdfSettingType::ValueString })
    } else if same_text(key, "header.fontSize") {
        Some(PdfSetting { scope: "Object", key: "header.fontSize", value_type: PdfSettingType::ValueString })
    } else if same_text(key, "header.left") {
        Some(PdfSetting { scope: "Object", key: "header.left", value_type: PdfSettingType::ValueString })
    } else if same_text(key, "header.center") {
        Some(PdfSetting { scope: "Object", key: "header.center", value_type: PdfSettingType::ValueString })
    } else if same_text(key, "header.right") {
        Some(PdfSetting { scope: "Object", key: "header.right", value_type: PdfSettingType::ValueString })
    } else if same_text(key, "header.line") {
        Some(PdfSetting { scope: "Object", key: "header.line", value_type: PdfSettingType::ValueBool })
    } else if same_text(key, "header.spacing") {
        Some(PdfSetting { scope: "Object", key: "header.spacing", value_type: PdfSettingType::ValueFloat })
    } else if same_text(key, "header.htmlUrl") {
        Some(PdfSetting { scope: "Object", key: "header.htmlUrl", value_type: PdfSettingType::ValueString })
    } else if same_text(key, "footer.fontName") {
        Some(PdfSetting { scope: "Object", key: "footer.fontName", value_type: PdfSettingType::ValueString })
    } else if same_text(key, "footer.fontSize") {
        Some(PdfSetting { scope: "Object", key: "footer.fontSize", value_type: PdfSettingType::ValueString })
    } else if same_text(key, "footer.left") {
        Some(PdfSetting { scope: "Object", key: "footer.left", value_type: PdfSettingType::ValueString })
    } else if same_text(key, "footer.center") {
        Some(PdfSetting { scope: "Object", key: "footer.center", value_type: PdfSettingType::ValueString })
    } else if same_text(key, "footer.right") {
        Some(PdfSetting { scope: "Object", key: "footer.right", value_type: PdfSettingType::ValueString })
    } else if same_text(key, "footer.line") {
        Some(PdfSetting { scope: "Object", key: "footer.line", value_type: PdfSettingType::ValueBool })
    } else if same_text(key, "footer.spacing") {
        Some(PdfSetting { scope: "Object", key: "footer.spacing", value_type: PdfSettingType::ValueFloat })
    } else if same_text(key, "footer.htmlUrl") {
        Some(PdfSetting { scope: "Object", key: "footer.htmlUrl", value_type: PdfSettingType::ValueString })
    } else if same_text(key, "load.username") {
        Some(PdfSetting { scope: "Object", key: "load.username", value_type: PdfSettingType::ValueString })
    } else if same_text(key, "load.password") {
        Some(PdfSetting { scope: "Object", key: "load.password", value_type: PdfSettingType::ValueString })
    } else if same_text(key, "load.jsdelay") {
        Some(PdfSetting { scope: "Object", key: "load.jsdelay", value_type: PdfSettingType::ValueUint })
    } else if same_text(key, "load.windowStatus") {
        Some(PdfSetting { scope: "Object", key: "load.windowStatus", value_type: PdfSettingType::ValueString })
    } else if same_text(key, "load.zoomFactor") {
        Some(PdfSetting { scope: "Object", key: "load.zoomFactor", value_type: PdfSettingType::ValueString })
    } else if same_text(key, "load.blockLocalFileAccess") {
        Some(PdfSetting { scope: "Object", key: "load.blockLocalFileAccess", value_type: PdfSettingType::ValueString })
    } else if same_text(key, "load.stopSlowScripts") {
        Some(PdfSetting { scope: "Object", key: "load.stopSlowScripts", value_type: PdfSettingType::ValueBool })
    } else if same_text(key, "load.loadErrorHandling") {
        Some(PdfSetting { scope: "Object", key: "load.loadErrorHandling", value_type: PdfSettingType::ValueString })
    } else if same_text(key, "load.proxy") {
        Some(PdfSetting { scope: "Object", key: "load.proxy", value_type: PdfSettingType::ValueString })
    } else if same_text(key, "web.background") {
        Some(PdfSetting { scope: "Object", key: "web.background", value_type: PdfSettingType::ValueBool })
    } else if same_text(key, "web.loadImages") {
        Some(PdfSetting { scope: "Object", key: "web.loadImages", value_type: PdfSettingType::ValueBool })
    } else if same_text(key, "web.enableJavascript") {
        Some(PdfSetting { scope: "Object", key: "web.enableJavascript", value_type: PdfSettingType::ValueBool })
    } else if same_text(key, "web.enableIntelligentShrinking") {
        Some(PdfSetting { scope: "Object", key: "web.enableIntelligentShrinking", value_type: PdfSettingType::ValueBool })
    } else if same_text(key, "web.minimumFontSize") {
        Some(PdfSetting { scope: "Object", key: "web.minimumFontSize", value_type: PdfSettingType::ValueUint })
    } else if same_text(key, "web.defaultEncoding") {
        Some(PdfSetting { scope: "Object", key: "web.defaultEncoding", value_type: PdfSettingType::ValueString })
    } else if same_text(key, "web.printMediaType") {
        Some(PdfSetting { scope: "Object", key: "web.printMediaType", value_type: PdfSettingType::ValueBool })
    } else if same_text(key, "web.userStyleSheet") {
        Some(PdfSetting { scope: "Object", key: "web.userStyleSheet", value_type: PdfSettingType::ValueString })
    } else if same_text(key, "web.enablePlugins") {
        Some(PdfSetting { scope: "Object", key: "web.enablePlugins", value_type: PdfSettingType::ValueBool })
    } else {
        None
    }
}

/// Whether `text` has a character at `from` and holds nothing but decimal
/// digits from there on.
pub open spec fn digits_from(text: Seq<char>, from: int) -> bool {
    from < text.len() && forall|i: int| from <= i < text.len() ==> '0' <= #[trigger] text[i] <= '9'
}

/// Whether a JSON numeral is a whole number that is not negative: digits and
/// nothing else.
pub open spec fn is_unsigned_numeral(numeral: Seq<char>) -> bool {
    digits_from(numeral, 0)
}

/// Whether a JSON numeral is a whole number: digits, after a minus sign or
/// without one, with no fraction and no exponent.
pub open spec fn is_integer_numeral(numeral: Seq<char>) -> bool {
    digits_from(numeral, 0) || (numeral.len() >= 1 && numeral[0] == '-' && digits_from(numeral, 1))
}

/// Whether a JSON numeral is a value of a declared type: any number is a
/// float, a whole number is an integer, and a whole number that is not
/// negative is an unsigned integer. No numeral is a string or a boolean.
pub open spec fn numeral_fits(value_type: PdfSettingType, numeral: Seq<char>) -> bool {
    match value_type {
        PdfSettingType::ValueFloat => true,
        PdfSettingType::ValueInt => is_integer_numeral(numeral),
        PdfSettingType::ValueUint => is_unsigned_numeral(numeral),
        _ => false,
    }
}

/// The text that a setting of type `value_type` takes from a JSON value: a
/// string for a string setting, `true` or `false` for a boolean one, and for
/// a numeric one the numeral of a number of that type. Any other pairing is a
/// mismatch.
pub open spec fn setting_text(value_type: PdfSettingType, value: JsonValueView) -> Option<
    Seq<char>,
> {
    match value.data {
        JsonDataView::Text(text) => if value_type == PdfSettingType::ValueString {
            Some(text)
        } else {
            None
        },
        JsonDataView::Bool(b) => if value_type == PdfSettingType::ValueBool {
            Some(
                if b {
                    "true"@
                } else {
                    "false"@
                },
            )
        } else {
            None
        },
        JsonDataView::Number(numeral) => if numeral_fits(value_type, numeral) {
            Some(numeral)
        } else {
            None
        },
        _ => None,
    }
}

/// A value is taken for a setting exactly when it is of the declared type: a
/// string for a string setting, a boolean for a boolean one, a whole number
/// for an integer, a whole number that is not negative for an unsigned
/// integer, and any number for a float. Null, an array and an object are of
/// no declared type.
pub proof fn lemma_value_is_taken_by_its_type(value_type: PdfSettingType, value: JsonValueView)
    ensures
        setting_text(value_type, value) is Some <==> match value.data {
            JsonDataView::Text(_) => value_type == PdfSettingType::ValueString,
            JsonDataView::Bool(_) => value_type == PdfSettingType::ValueBool,
            JsonDataView::Number(numeral) => (value_type == PdfSettingType::ValueInt
                && is_integer_numeral(numeral)) || (value_type == PdfSettingType::ValueUint
                && is_unsigned_numeral(numeral)) || value_type == PdfSettingType::ValueFloat,
            JsonDataView::Null => false,
            JsonDataView::Array => false,
            JsonDataView::Object(_) => false,
        },
{
}

/// Whether `text` has a character at `from` and holds nothing but decimal
/// digits from there on.
fn has_digits_from(text: &str, from: usize) -> (digits: bool)
    ensures
        digits == digits_from(text@, from as int),
{
    let len = text.unicode_len();
    if from >= len {
        return false;
    }
    let mut i: usize = from;
    while i < len
        invariant
            from <= i <= len,
            len == text@.len(),
            forall|j: int| from <= j < i ==> '0' <= #[trigger] text@[j] <= '9',
        decreases len - i,
    {
        let c = text.get_char(i);
        if c < '0' || c > '9' {
            return false;
        }
        i += 1;
    }
    true
}

/// Whether a JSON numeral is a value of a declared type.
pub fn fits(value_type: PdfSettingType, numeral: &str) -> (ok: bool)
    ensures
        ok == numeral_fits(value_type, numeral@),
{
    match value_type {
        PdfSettingType::ValueFloat => true,
        PdfSettingType::ValueUint => has_digits_from(numeral, 0),
        PdfSettingType::ValueInt => {
            if has_digits_from(numeral, 0) {
                true
            } else if numeral.unicode_len() >= 1 && numeral.get_char(0) == '-' {
                has_digits_from(numeral, 1)
            } else {
                false
            }
        },
        _ => false,
    }
}

/// The message for a value that does not match the declared type: it names
/// the scope, the key, the declared type and the offending JSON.
pub open spec fn mismatch_message(
    scope: Seq<char>,
    key: Seq<char>,
    value_type: PdfSettingType,
    json: Seq<char>,
) -> Seq<char> {
    scope + " setting '"@ + key + "' must be of type '"@ + declared_type_name(value_type) + "': "@ + json
}

/// Builds the message for a value that does not match a setting's type.
pub fn build_err_msg(pdf_setting: &PdfSetting, json_value: &JsonValue) -> (message: String)
    ensures
        message@ == mismatch_message(
            pdf_setting.scope@,
            pdf_setting.key@,
            pdf_setting.value_type,
            json_value@.text,
        ),
{
    let mut message = String::from_str(pdf_setting.scope);
    message.append(" setting '");
    message.append(pdf_setting.key);
    message.append("' must be of type '");
    message.append(pdf_setting.value_type.name());
    message.append("': ");
    message.append(json_value.text.as_str());
    message
}

/// Coerces a JSON value to the text of a setting, or fails with the mismatch
/// message.
pub fn get_pdf_setting_value(pdf_setting: &PdfSetting, json_value: &JsonValue) -> (r: Result<
    String,
    AnyError,
>)
    ensures
        r is Ok <==> setting_text(pdf_setting.value_type, json_value@) is Some,
        r matches Ok(text) ==> Some(text@) == setting_text(pdf_setting.value_type, json_value@),
        r matches Err(e) ==> e.parent.is_none() && e.details@ == mismatch_message(
            pdf_setting.scope@,
            pdf_setting.key@,
            pdf_setting.value_type,
            json_value@.text,
        ),
{
    let value: Option<String> = match &json_value.data {
        JsonData::Text(s) => match pdf_setting.value_type {
            PdfSettingType::ValueString => Some(s.clone()),
            _ => None,
        },
        JsonData::Bool(b) => match pdf_setting.value_type {
            PdfSettingType::ValueBool => Some(
                String::from_str(
                    if *b {
                        "true"
                    } else {
                        "false"
                    },
                ),
            ),
            _ => None,
        },
        JsonData::Number(n) => if fits(pdf_setting.value_type, n.as_str()) {
            Some(n.clone())
        } else {
            None
        },
        _ => None,
    };
    match value {
        Some(text) => Ok(text),
        None => {
            let message = build_err_msg(pdf_setting, json_value);
            Err(AnyError::without_parent(message.as_str()))
        },
    }
}

} // verus!
