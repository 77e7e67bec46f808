//! WMO weather interpretation codes and their short Chinese labels.
use vstd::prelude::*;

verus! {

/// The label shown for a WMO weather code; codes outside the table read "未知".
pub open spec fn wmo_label(code: i32) -> Seq<char> {
    if code == 0 {
        "晴"@
    } else if code == 1 || code == 2 {
        "多云"@
    } else if code == 3 {
        "阴"@
    } else if code == 45 || code == 48 {
        "雾"@
    } else if code == 51 || code == 53 || code == 55 {
        "毛毛雨"@
    } else if code == 56 || code == 57 || code == 66 || code == 67 {
        "冻雨"@
    } else if code == 61 {
        "小雨"@
    } else if code == 63 {
        "中雨"@
    } else if code == 65 {
        "大雨"@
    } else if code == 71 || code == 73 {
        "小雪"@
    } else if code == 75 {
        "大雪"@
    } else if code == 77 {
        "米雪"@
    } else if code == 80 || code == 81 {
        "阵雨"@
    } else if code == 82 {
        "大阵雨"@
    } else if code == 85 || code == 86 {
        "阵雪"@
    } else if code == 95 || code == 96 || code == 99 {
        "雷暴"@
    } else {
        "未知"@
    }
}

/// Short description of a WMO weather code.
pub fn wmo_text(code: i32) -> (text: &'static str)
    ensures
        text@ == wmo_label(code),
{
    match code {
        0 => "晴",
        1 | 2 => "多云",
        3 => "阴",
        45 | 48 => "雾",
        51 | 53 | 55 => "毛毛雨",
        56 | 57 => "冻雨",
        61 => "小雨",
        63 => "中雨",
        65 => "大雨",
        66 | 67 => "冻雨",
        71 | 73 => "小雪",
        75 => "大雪",
        77 => "米雪",
        80 | 81 => "阵雨",
        82 => "大阵雨",
        85 | 86 => "阵雪",
        95 | 96 | 99 => "雷暴",
        _ => "未知",
    }
}

/// Each label is given by exactly the codes of its WMO group, and every code outside the
/// table reads "未知".
pub proof fn lemma_label_groups(code: i32)
    ensures
        wmo_label(code) == "晴"@ <==> (code == 0),
        wmo_label(code) == "多云"@ <==> (code == 1 || code == 2),
        wmo_label(code) == "阴"@ <==> (code == 3),
        wmo_label(code) == "雾"@ <==> (code == 45 || code == 48),
        wmo_label(code) == "毛毛雨"@ <==> (code == 51 || code == 53 || code == 55),
        wmo_label(code) == "冻雨"@ <==> (code == 56 || code == 57 || code == 66 || code == 67),
        wmo_label(code) == "小雨"@ <==> (code == 61),
        wmo_label(code) == "中雨"@ <==> (code == 63),
        wmo_label(code) == "大雨"@ <==> (code == 65),
        wmo_label(code) == "小雪"@ <==> (code == 71 || code == 73),
        wmo_label(code) == "大雪"@ <==> (code == 75),
        wmo_label(code) == "米雪"@ <==> (code == 77),
        wmo_label(code) == "阵雨"@ <==> (code == 80 || code == 81),
        wmo_label(code) == "大阵雨"@ <==> (code == 82),
        wmo_label(code) == "阵雪"@ <==> (code == 85 || code == 86),
        wmo_label(code) == "雷暴"@ <==> (code == 95 || code == 96 || code == 99),
        wmo_label(code) == "未知"@ <==> !((code == 0) || (code == 1 || code == 2) || (code == 3) || (code == 45 || code == 48) || (code == 51 || code == 53 || code == 55) || (code == 56 || code == 57 || code == 66 || code == 67) || (code == 61) || (code == 63) || (code == 65) || (code == 71 || code == 73) || (code == 75) || (code == 77) || (code == 80 || code == 81) || (code == 82) || (code == 85 || code == 86) || (code == 95 || code == 96 || code == 99)),
{
    reveal_strlit("晴");
    reveal_strlit("多云");
    reveal_strlit("阴");
    reveal_strlit("雾");
    reveal_strlit("毛毛雨");
    reveal_strlit("冻雨");
    reveal_strlit("小雨");
    reveal_strlit("中雨");
    reveal_strlit("大雨");
    reveal_strlit("小雪");
    reveal_strlit("大雪");
    reveal_strlit("米雪");
    reveal_strlit("阵雨");
    reveal_strlit("大阵雨");
    reveal_strlit("阵雪");
    reveal_strlit("雷暴");
    reveal_strlit("未知");
    // The labels differ pairwise, by their length or by a character.
    assert("晴"@.len() != "多云"@.len());
    assert("晴"@[0] != "阴"@[0]);
    assert("晴"@[0] != "雾"@[0]);
    assert("晴"@.len() != "毛毛雨"@.len());
    assert("晴"@.len() != "冻雨"@.len());
    assert("晴"@.len() != "小雨"@.len());
    assert("晴"@.len() != "中雨"@.len());
    assert("晴"@.len() != "大雨"@.len());
    assert("晴"@.len() != "小雪"@.len());
    assert("晴"@.len() != "大雪"@.len());
    assert("晴"@.len() != "米雪"@.len());
    assert("晴"@.len() != "阵雨"@.len());
    assert("晴"@.len() != "大阵雨"@.len());
    assert("晴"@.len() != "阵雪"@.len());
    assert("晴"@.len() != "雷暴"@.len());
    assert("晴"@.len() != "未知"@.len());
    assert("多云"@.len() != "阴"@.len());
    assert("多云"@.len() != "雾"@.len());
    assert("多云"@.len() != "毛毛雨"@.len());
    assert("多云"@[0] != "冻雨"@[0]);
    assert("多云"@[0] != "小雨"@[0]);
    assert("多云"@[0] != "中雨"@[0]);
    assert("多云"@[0] != "大雨"@[0]);
    assert("多云"@[0] != "小雪"@[0]);
    assert("多云"@[0] != "大雪"@[0]);
    assert("多云"@[0] != "米雪"@[0]);
    assert("多云"@[0] != "阵雨"@[0]);
    assert("多云"@.len() != "大阵雨"@.len());
    assert("多云"@[0] != "阵雪"@[0]);
    assert("多云"@[0] != "雷暴"@[0]);
    assert("多云"@[0] != "未知"@[0]);
    assert("阴"@[0] != "雾"@[0]);
    assert("阴"@.len() != "毛毛雨"@.len());
    assert("阴"@.len() != "冻雨"@.len());
    assert("阴"@.len() != "小雨"@.len());
    assert("阴"@.len() != "中雨"@.len());
    assert("阴"@.len() != "大雨"@.len());
    assert("阴"@.len() != "小雪"@.len());
    assert("阴"@.len() != "大雪"@.len());
    assert("阴"@.len() != "米雪"@.len());
    assert("阴"@.len() != "阵雨"@.len());
    assert("阴"@.len() != "大阵雨"@.len());
    assert("阴"@.len() != "阵雪"@.len());
    assert("阴"@.len() != "雷暴"@.len());
    assert("阴"@.len() != "未知"@.len());
    assert("雾"@.len() != "毛毛雨"@.len());
    assert("雾"@.len() != "冻雨"@.len());
    assert("雾"@.len() != "小雨"@.len());
    assert("雾"@.len() != "中雨"@.len());
    assert("雾"@.len() != "大雨"@.len());
    assert("雾"@.len() != "小雪"@.len());
    assert("雾"@.len() != "大雪"@.len());
    assert("雾"@.len() != "米雪"@.len());
    assert("雾"@.len() != "阵雨"@.len());
    assert("雾"@.len() != "大阵雨"@.len());
    assert("雾"@.len() != "阵雪"@.len());
    assert("雾"@.len() != "雷暴"@.len());
    assert("雾"@.len() != "未知"@.len());
    assert("毛毛雨"@.len() != "冻雨"@.len());
    assert("毛毛雨"@.len() != "小雨"@.len());
    assert("毛毛雨"@.len() != "中雨"@.len());
    assert("毛毛雨"@.len() != "大雨"@.len());
    assert("毛毛雨"@.len() != "小雪"@.len());
    assert("毛毛雨"@.len() != "大雪"@.len());
    assert("毛毛雨"@.len() != "米雪"@.len());
    assert("毛毛雨"@.len() != "阵雨"@.len());
    assert("毛毛雨"@[0] != "大阵雨"@[0]);
    assert("毛毛雨"@.len() != "阵雪"@.len());
    assert("毛毛雨"@.len() != "雷暴"@.len());
    assert("毛毛雨"@.len() != "未知"@.len());
    assert("冻雨"@[0] != "小雨"@[0]);
    assert("冻雨"@[0] != "中雨"@[0]);
    assert("冻雨"@[0] != "大雨"@[0]);
    assert("冻雨"@[0] != "小雪"@[0]);
    assert("冻雨"@[0] != "大雪"@[0]);
    assert("冻雨"@[0] != "米雪"@[0]);
    assert("冻雨"@[0] != "阵雨"@[0]);
    assert("冻雨"@.len() != "大阵雨"@.len());
    assert("冻雨"@[0] != "阵雪"@[0]);
    assert("冻雨"@[0] != "雷暴"@[0]);
    assert("冻雨"@[0] != "未知"@[0]);
    assert("小雨"@[0] != "中雨"@[0]);
    assert("小雨"@[0] != "大雨"@[0]);
    assert("小雨"@[1] != "小雪"@[1]);
    assert("小雨"@[0] != "大雪"@[0]);
    assert("小雨"@[0] != "米雪"@[0]);
    assert("小雨"@[0] != "阵雨"@[0]);
    assert("小雨"@.len() != "大阵雨"@.len());
    assert("小雨"@[0] != "阵雪"@[0]);
    assert("小雨"@[0] != "雷暴"@[0]);
    assert("小雨"@[0] != "未知"@[0]);
    assert("中雨"@[0] != "大雨"@[0]);
    assert("中雨"@[0] != "小雪"@[0]);
    assert("中雨"@[0] != "大雪"@[0]);
    assert("中雨"@[0] != "米雪"@[0]);
    assert("中雨"@[0] != "阵雨"@[0]);
    assert("中雨"@.len() != "大阵雨"@.len());
    assert("中雨"@[0] != "阵雪"@[0]);
    assert("中雨"@[0] != "雷暴"@[0]);
    assert("中雨"@[0] != "未知"@[0]);
    assert("大雨"@[0] != "小雪"@[0]);
    assert("大雨"@[1] != "大雪"@[1]);
    assert("大雨"@[0] != "米雪"@[0]);
    assert("大雨"@[0] != "阵雨"@[0]);
    assert("大雨"@.len() != "大阵雨"@.len());
    assert("大雨"@[0] != "阵雪"@[0]);
    assert("大雨"@[0] != "雷暴"@[0]);
    assert("大雨"@[0] != "未知"@[0]);
    assert("小雪"@[0] != "大雪"@[0]);
    assert("小雪"@[0] != "米雪"@[0]);
    assert("小雪"@[0] != "阵雨"@[0]);
    assert("小雪"@.len() != "大阵雨"@.len());
    assert("小雪"@[0] != "阵雪"@[0]);
    assert("小雪"@[0] != "雷暴"@[0]);
    assert("小雪"@[0] != "未知"@[0]);
    assert("大雪"@[0] != "米雪"@[0]);
    assert("大雪"@[0] != "阵雨"@[0]);
    assert("大雪"@.len() != "大阵雨"@.len());
    assert("大雪"@[0] != "阵雪"@[0]);
    assert("大雪"@[0] != "雷暴"@[0]);
    assert("大雪"@[0] != "未知"@[0]);
    assert("米雪"@[0] != "阵雨"@[0]);
    assert("米雪"@.len() != "大阵雨"@.len());
    assert("米雪"@[0] != "阵雪"@[0]);
    assert("米雪"@[0] != "雷暴"@[0]);
    assert("米雪"@[0] != "未知"@[0]);
    assert("阵雨"@.len() != "大阵雨"@.len());
    assert("阵雨"@[1] != "阵雪"@[1]);
    assert("阵雨"@[0] != "雷暴"@[0]);
    assert("阵雨"@[0] != "未知"@[0]);
    assert("大阵雨"@.len() != "阵雪"@.len());
    assert("大阵雨"@.len() != "雷暴"@.len());
    assert("大阵雨"@.len() != "未知"@.len());
    assert("阵雪"@[0] != "雷暴"@[0]);
    assert("阵雪"@[0] != "未知"@[0]);
    assert("雷暴"@[0] != "未知"@[0]);
}

} // verus!
