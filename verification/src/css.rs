//! The styled property itself: one tagged union over every typed CSS
//! value, with constructors for each property, keyword constructors for the
//! cascade-wide keywords, and checked accessors that never panic.

use vstd::prelude::*;

use crate::css_values::AzLayoutAlignContent;
use crate::css_values::AzLayoutAlignContentValue;
use crate::css_values::AzLayoutAlignItems;
use crate::css_values::AzLayoutAlignItemsValue;
use crate::css_values::AzLayoutBorderBottomWidth;
use crate::css_values::AzLayoutBorderBottomWidthValue;
use crate::css_values::AzLayoutBorderLeftWidth;
use crate::css_values::AzLayoutBorderLeftWidthValue;
use crate::css_values::AzLayoutBorderRightWidth;
use crate::css_values::AzLayoutBorderRightWidthValue;
use crate::css_values::AzLayoutBorderTopWidth;
use crate::css_values::AzLayoutBorderTopWidthValue;
use crate::css_values::AzLayoutBottom;
use crate::css_values::AzLayoutBottomValue;
use crate::css_values::AzLayoutBoxSizing;
use crate::css_values::AzLayoutBoxSizingValue;
use crate::css_values::AzLayoutDisplay;
use crate::css_values::AzLayoutDisplayValue;
use crate::css_values::AzLayoutFlexDirection;
use crate::css_values::AzLayoutFlexDirectionValue;
use crate::css_values::AzLayoutFlexGrow;
use crate::css_values::AzLayoutFlexGrowValue;
use crate::css_values::AzLayoutFlexShrink;
use crate::css_values::AzLayoutFlexShrinkValue;
use crate::css_values::AzLayoutFlexWrap;
use crate::css_values::AzLayoutFlexWrapValue;
use crate::css_values::AzLayoutFloat;
use crate::css_values::AzLayoutFloatValue;
use crate::css_values::AzLayoutHeight;
use crate::css_values::AzLayoutHeightValue;
use crate::css_values::AzLayoutJustifyContent;
use crate::css_values::AzLayoutJustifyContentValue;
use crate::css_values::AzLayoutLeft;
use crate::css_values::AzLayoutLeftValue;
use crate::css_values::AzLayoutMarginBottom;
use crate::css_values::AzLayoutMarginBottomValue;
use crate::css_values::AzLayoutMarginLeft;
use crate::css_values::AzLayoutMarginLeftValue;
use crate::css_values::AzLayoutMarginRight;
use crate::css_values::AzLayoutMarginRightValue;
use crate::css_values::AzLayoutMarginTop;
use crate::css_values::AzLayoutMarginTopValue;
use crate::css_values::AzLayoutMaxHeight;
use crate::css_values::AzLayoutMaxHeightValue;
use crate::css_values::AzLayoutMaxWidth;
use crate::css_values::AzLayoutMaxWidthValue;
use crate::css_values::AzLayoutMinHeight;
use crate::css_values::AzLayoutMinHeightValue;
use crate::css_values::AzLayoutMinWidth;
use crate::css_values::AzLayoutMinWidthValue;
use crate::css_values::AzLayoutOverflow;
use crate::css_values::AzLayoutOverflowValue;
use crate::css_values::AzLayoutPaddingBottom;
use crate::css_values::AzLayoutPaddingBottomValue;
use crate::css_values::AzLayoutPaddingLeft;
use crate::css_values::AzLayoutPaddingLeftValue;
use crate::css_values::AzLayoutPaddingRight;
use crate::css_values::AzLayoutPaddingRightValue;
use crate::css_values::AzLayoutPaddingTop;
use crate::css_values::AzLayoutPaddingTopValue;
use crate::css_values::AzLayoutPosition;
use crate::css_values::AzLayoutPositionValue;
use crate::css_values::AzLayoutRight;
use crate::css_values::AzLayoutRightValue;
use crate::css_values::AzLayoutTop;
use crate::css_values::AzLayoutTopValue;
use crate::css_values::AzLayoutWidth;
use crate::css_values::AzLayoutWidthValue;
use crate::css_values::AzScrollbarStyleValue;
use crate::css_values::AzStyleBackfaceVisibility;
use crate::css_values::AzStyleBackfaceVisibilityValue;
use crate::css_values::AzStyleBackgroundContentVec;
use crate::css_values::AzStyleBackgroundContentVecValue;
use crate::css_values::AzStyleBackgroundPositionVec;
use crate::css_values::AzStyleBackgroundPositionVecValue;
use crate::css_values::AzStyleBackgroundRepeatVec;
use crate::css_values::AzStyleBackgroundRepeatVecValue;
use crate::css_values::AzStyleBackgroundSizeVec;
use crate::css_values::AzStyleBackgroundSizeVecValue;
use crate::css_values::AzStyleBorderBottomColor;
use crate::css_values::AzStyleBorderBottomColorValue;
use crate::css_values::AzStyleBorderBottomLeftRadius;
use crate::css_values::AzStyleBorderBottomLeftRadiusValue;
use crate::css_values::AzStyleBorderBottomRightRadius;
use crate::css_values::AzStyleBorderBottomRightRadiusValue;
use crate::css_values::AzStyleBorderBottomStyle;
use crate::css_values::AzStyleBorderBottomStyleValue;
use crate::css_values::AzStyleBorderLeftColor;
use crate::css_values::AzStyleBorderLeftColorValue;
use crate::css_values::AzStyleBorderLeftStyle;
use crate::css_values::AzStyleBorderLeftStyleValue;
use crate::css_values::AzStyleBorderRightColor;
use crate::css_values::AzStyleBorderRightColorValue;
use crate::css_values::AzStyleBorderRightStyle;
use crate::css_values::AzStyleBorderRightStyleValue;
use crate::css_values::AzStyleBorderTopColor;
use crate::css_values::AzStyleBorderTopColorValue;
use crate::css_values::AzStyleBorderTopLeftRadius;
use crate::css_values::AzStyleBorderTopLeftRadiusValue;
use crate::css_values::AzStyleBorderTopRightRadius;
use crate::css_values::AzStyleBorderTopRightRadiusValue;
use crate::css_values::AzStyleBorderTopStyle;
use crate::css_values::AzStyleBorderTopStyleValue;
use crate::css_values::AzStyleBoxShadow;
use crate::css_values::AzStyleBoxShadowValue;
use crate::css_values::AzStyleCursor;
use crate::css_values::AzStyleCursorValue;
use crate::css_values::AzStyleFontFamily;
use crate::css_values::AzStyleFontFamilyValue;
use crate::css_values::AzStyleFontSize;
use crate::css_values::AzStyleFontSizeValue;
use crate::css_values::AzStyleLetterSpacing;
use crate::css_values::AzStyleLetterSpacingValue;
use crate::css_values::AzStyleLineHeight;
use crate::css_values::AzStyleLineHeightValue;
use crate::css_values::AzStyleOpacity;
use crate::css_values::AzStyleOpacityValue;
use crate::css_values::AzStylePerspectiveOrigin;
use crate::css_values::AzStylePerspectiveOriginValue;
use crate::css_values::AzStyleTabWidth;
use crate::css_values::AzStyleTabWidthValue;
use crate::css_values::AzStyleTextAlignmentHorz;
use crate::css_values::AzStyleTextAlignmentHorzValue;
use crate::css_values::AzStyleTextColor;
use crate::css_values::AzStyleTextColorValue;
use crate::css_values::AzStyleTransformOrigin;
use crate::css_values::AzStyleTransformOriginValue;
use crate::css_values::AzStyleTransformVec;
use crate::css_values::AzStyleTransformVecValue;
use crate::css_values::AzStyleWordSpacing;
use crate::css_values::AzStyleWordSpacingValue;

pub use self::AzCssProperty as CssProperty;
pub use self::AzCssPropertyType as CssPropertyType;

verus! {

#[derive(Debug, Clone, Copy, PartialEq, Eq, Structural)]
pub enum AzCssPropertyType {
    TextColor,
    FontSize,
    FontFamily,
    TextAlign,
    LetterSpacing,
    LineHeight,
    WordSpacing,
    TabWidth,
    Cursor,
    Display,
    Float,
    BoxSizing,
    Width,
    Height,
    MinWidth,
    MinHeight,
    MaxWidth,
    MaxHeight,
    Position,
    Top,
    Right,
    Left,
    Bottom,
    FlexWrap,
    FlexDirection,
    FlexGrow,
    FlexShrink,
    JustifyContent,
    AlignItems,
    AlignContent,
    OverflowX,
    OverflowY,
    PaddingTop,
    PaddingLeft,
    PaddingRight,
    PaddingBottom,
    MarginTop,
    MarginLeft,
    MarginRight,
    MarginBottom,
    Background,
    BackgroundImage,
    BackgroundColor,
    BackgroundPosition,
    BackgroundSize,
    BackgroundRepeat,
    BorderTopLeftRadius,
    BorderTopRightRadius,
    BorderBottomLeftRadius,
    BorderBottomRightRadius,
    BorderTopColor,
    BorderRightColor,
    BorderLeftColor,
    BorderBottomColor,
    BorderTopStyle,
    BorderRightStyle,
    BorderLeftStyle,
    BorderBottomStyle,
    BorderTopWidth,
    BorderRightWidth,
    BorderLeftWidth,
    BorderBottomWidth,
    BoxShadowLeft,
    BoxShadowRight,
    BoxShadowTop,
    BoxShadowBottom,
    ScrollbarStyle,
    Opacity,
    Transform,
    PerspectiveOrigin,
    TransformOrigin,
    BackfaceVisibility,
}

#[derive(Debug, PartialEq)]
pub enum AzCssProperty {
    TextColor(AzStyleTextColorValue),
    FontSize(AzStyleFontSizeValue),
    FontFamily(AzStyleFontFamilyValue),
    TextAlign(AzStyleTextAlignmentHorzValue),
    LetterSpacing(AzStyleLetterSpacingValue),
    LineHeight(AzStyleLineHeightValue),
    WordSpacing(AzStyleWordSpacingValue),
    TabWidth(AzStyleTabWidthValue),
    Cursor(AzStyleCursorValue),
    Display(AzLayoutDisplayValue),
    Float(AzLayoutFloatValue),
    BoxSizing(AzLayoutBoxSizingValue),
    Width(AzLayoutWidthValue),
    Height(AzLayoutHeightValue),
    MinWidth(AzLayoutMinWidthValue),
    MinHeight(AzLayoutMinHeightValue),
    MaxWidth(AzLayoutMaxWidthValue),
    MaxHeight(AzLayoutMaxHeightValue),
    Position(AzLayoutPositionValue),
    Top(AzLayoutTopValue),
    Right(AzLayoutRightValue),
    Left(AzLayoutLeftValue),
    Bottom(AzLayoutBottomValue),
    FlexWrap(AzLayoutFlexWrapValue),
    FlexDirection(AzLayoutFlexDirectionValue),
    FlexGrow(AzLayoutFlexGrowValue),
    FlexShrink(AzLayoutFlexShrinkValue),
    JustifyContent(AzLayoutJustifyContentValue),
    AlignItems(AzLayoutAlignItemsValue),
    AlignContent(AzLayoutAlignContentValue),
    BackgroundContent(AzStyleBackgroundContentVecValue),
    BackgroundPosition(AzStyleBackgroundPositionVecValue),
    BackgroundSize(AzStyleBackgroundSizeVecValue),
    BackgroundRepeat(AzStyleBackgroundRepeatVecValue),
    OverflowX(AzLayoutOverflowValue),
    OverflowY(AzLayoutOverflowValue),
    PaddingTop(AzLayoutPaddingTopValue),
    PaddingLeft(AzLayoutPaddingLeftValue),
    PaddingRight(AzLayoutPaddingRightValue),
    PaddingBottom(AzLayoutPaddingBottomValue),
    MarginTop(AzLayoutMarginTopValue),
    MarginLeft(AzLayoutMarginLeftValue),
    MarginRight(AzLayoutMarginRightValue),
    MarginBottom(AzLayoutMarginBottomValue),
    BorderTopLeftRadius(AzStyleBorderTopLeftRadiusValue),
    BorderTopRightRadius(AzStyleBorderTopRightRadiusValue),
    BorderBottomLeftRadius(AzStyleBorderBottomLeftRadiusValue),
    BorderBottomRightRadius(AzStyleBorderBottomRightRadiusValue),
    BorderTopColor(AzStyleBorderTopColorValue),
    BorderRightColor(AzStyleBorderRightColorValue),
    BorderLeftColor(AzStyleBorderLeftColorValue),
    BorderBottomColor(AzStyleBorderBottomColorValue),
    BorderTopStyle(AzStyleBorderTopStyleValue),
    BorderRightStyle(AzStyleBorderRightStyleValue),
    BorderLeftStyle(AzStyleBorderLeftStyleValue),
    BorderBottomStyle(AzStyleBorderBottomStyleValue),
    BorderTopWidth(AzLayoutBorderTopWidthValue),
    BorderRightWidth(AzLayoutBorderRightWidthValue),
    BorderLeftWidth(AzLayoutBorderLeftWidthValue),
    BorderBottomWidth(AzLayoutBorderBottomWidthValue),
    BoxShadowLeft(AzStyleBoxShadowValue),
    BoxShadowRight(AzStyleBoxShadowValue),
    BoxShadowTop(AzStyleBoxShadowValue),
    BoxShadowBottom(AzStyleBoxShadowValue),
    ScrollbarStyle(AzScrollbarStyleValue),
    Opacity(AzStyleOpacityValue),
    Transform(AzStyleTransformVecValue),
    TransformOrigin(AzStyleTransformOriginValue),
    PerspectiveOrigin(AzStylePerspectiveOriginValue),
    BackfaceVisibility(AzStyleBackfaceVisibilityValue),
}

/// The key of each property variant.  The one background variant stands for
/// every background form, and answers the image key for all of them.
pub open spec fn spec_get_type(p: AzCssProperty) -> AzCssPropertyType {
    match p {
        AzCssProperty::TextColor(_) => AzCssPropertyType::TextColor,
        AzCssProperty::FontSize(_) => AzCssPropertyType::FontSize,
        AzCssProperty::FontFamily(_) => AzCssPropertyType::FontFamily,
        AzCssProperty::TextAlign(_) => AzCssPropertyType::TextAlign,
        AzCssProperty::LetterSpacing(_) => AzCssPropertyType::LetterSpacing,
        AzCssProperty::LineHeight(_) => AzCssPropertyType::LineHeight,
        AzCssProperty::WordSpacing(_) => AzCssPropertyType::WordSpacing,
        AzCssProperty::TabWidth(_) => AzCssPropertyType::TabWidth,
        AzCssProperty::Cursor(_) => AzCssPropertyType::Cursor,
        AzCssProperty::Display(_) => AzCssPropertyType::Display,
        AzCssProperty::Float(_) => AzCssPropertyType::Float,
        AzCssProperty::BoxSizing(_) => AzCssPropertyType::BoxSizing,
        AzCssProperty::Width(_) => AzCssPropertyType::Width,
        AzCssProperty::Height(_) => AzCssPropertyType::Height,
        AzCssProperty::MinWidth(_) => AzCssPropertyType::MinWidth,
        AzCssProperty::MinHeight(_) => AzCssPropertyType::MinHeight,
        AzCssProperty::MaxWidth(_) => AzCssPropertyType::MaxWidth,
        AzCssProperty::MaxHeight(_) => AzCssPropertyType::MaxHeight,
        AzCssProperty::Position(_) => AzCssPropertyType::Position,
        AzCssProperty::Top(_) => AzCssPropertyType::Top,
        AzCssProperty::Right(_) => AzCssPropertyType::Right,
        AzCssProperty::Left(_) => AzCssPropertyType::Left,
        AzCssProperty::Bottom(_) => AzCssPropertyType::Bottom,
        AzCssProperty::FlexWrap(_) => AzCssPropertyType::FlexWrap,
        AzCssProperty::FlexDirection(_) => AzCssPropertyType::FlexDirection,
        AzCssProperty::FlexGrow(_) => AzCssPropertyType::FlexGrow,
        AzCssProperty::FlexShrink(_) => AzCssPropertyType::FlexShrink,
        AzCssProperty::JustifyContent(_) => AzCssPropertyType::JustifyContent,
        AzCssProperty::AlignItems(_) => AzCssPropertyType::AlignItems,
        AzCssProperty::AlignContent(_) => AzCssPropertyType::AlignContent,
        AzCssProperty::BackgroundContent(_) => AzCssPropertyType::BackgroundImage,
        AzCssProperty::BackgroundPosition(_) => AzCssPropertyType::BackgroundPosition,
        AzCssProperty::BackgroundSize(_) => AzCssPropertyType::BackgroundSize,
        AzCssProperty::BackgroundRepeat(_) => AzCssPropertyType::BackgroundRepeat,
        AzCssProperty::OverflowX(_) => AzCssPropertyType::OverflowX,
        AzCssProperty::OverflowY(_) => AzCssPropertyType::OverflowY,
        AzCssProperty::PaddingTop(_) => AzCssPropertyType::PaddingTop,
        AzCssProperty::PaddingLeft(_) => AzCssPropertyType::PaddingLeft,
        AzCssProperty::PaddingRight(_) => AzCssPropertyType::PaddingRight,
        AzCssProperty::PaddingBottom(_) => AzCssPropertyType::PaddingBottom,
        AzCssProperty::MarginTop(_) => AzCssPropertyType::MarginTop,
        AzCssProperty::MarginLeft(_) => AzCssPropertyType::MarginLeft,
        AzCssProperty::MarginRight(_) => AzCssPropertyType::MarginRight,
        AzCssProperty::MarginBottom(_) => AzCssPropertyType::MarginBottom,
        AzCssProperty::BorderTopLeftRadius(_) => AzCssPropertyType::BorderTopLeftRadius,
        AzCssProperty::BorderTopRightRadius(_) => AzCssPropertyType::BorderTopRightRadius,
        AzCssProperty::BorderBottomLeftRadius(_) => AzCssPropertyType::BorderBottomLeftRadius,
        AzCssProperty::BorderBottomRightRadius(_) => AzCssPropertyType::BorderBottomRightRadius,
        AzCssProperty::BorderTopColor(_) => AzCssPropertyType::BorderTopColor,
        AzCssProperty::BorderRightColor(_) => AzCssPropertyType::BorderRightColor,
        AzCssProperty::BorderLeftColor(_) => AzCssPropertyType::BorderLeftColor,
        AzCssProperty::BorderBottomColor(_) => AzCssPropertyType::BorderBottomColor,
        AzCssProperty::BorderTopStyle(_) => AzCssPropertyType::BorderTopStyle,
        AzCssProperty::BorderRightStyle(_) => AzCssPropertyType::BorderRightStyle,
        AzCssProperty::BorderLeftStyle(_) => AzCssPropertyType::BorderLeftStyle,
        AzCssProperty::BorderBottomStyle(_) => AzCssPropertyType::BorderBottomStyle,
        AzCssProperty::BorderTopWidth(_) => AzCssPropertyType::BorderTopWidth,
        AzCssProperty::BorderRightWidth(_) => AzCssPropertyType::BorderRightWidth,
        AzCssProperty::BorderLeftWidth(_) => AzCssPropertyType::BorderLeftWidth,
        AzCssProperty::BorderBottomWidth(_) => AzCssPropertyType::BorderBottomWidth,
        AzCssProperty::BoxShadowLeft(_) => AzCssPropertyType::BoxShadowLeft,
        AzCssProperty::BoxShadowRight(_) => AzCssPropertyType::BoxShadowRight,
        AzCssProperty::BoxShadowTop(_) => AzCssPropertyType::BoxShadowTop,
        AzCssProperty::BoxShadowBottom(_) => AzCssPropertyType::BoxShadowBottom,
        AzCssProperty::ScrollbarStyle(_) => AzCssPropertyType::ScrollbarStyle,
        AzCssProperty::Opacity(_) => AzCssPropertyType::Opacity,
        AzCssProperty::Transform(_) => AzCssPropertyType::Transform,
        AzCssProperty::PerspectiveOrigin(_) => AzCssPropertyType::PerspectiveOrigin,
        AzCssProperty::TransformOrigin(_) => AzCssPropertyType::TransformOrigin,
        AzCssProperty::BackfaceVisibility(_) => AzCssPropertyType::BackfaceVisibility,
    }
}

/// The `none` form of the property named by `pt`.
pub open spec fn spec_none(pt: AzCssPropertyType) -> AzCssProperty {
    match pt {
        AzCssPropertyType::TextColor => AzCssProperty::TextColor(AzStyleTextColorValue::NoValue),
        AzCssPropertyType::FontSize => AzCssProperty::FontSize(AzStyleFontSizeValue::NoValue),
        AzCssPropertyType::FontFamily => AzCssProperty::FontFamily(AzStyleFontFamilyValue::NoValue),
        AzCssPropertyType::TextAlign => AzCssProperty::TextAlign(AzStyleTextAlignmentHorzValue::NoValue),
        AzCssPropertyType::LetterSpacing => AzCssProperty::LetterSpacing(AzStyleLetterSpacingValue::NoValue),
        AzCssPropertyType::LineHeight => AzCssProperty::LineHeight(AzStyleLineHeightValue::NoValue),
        AzCssPropertyType::WordSpacing => AzCssProperty::WordSpacing(AzStyleWordSpacingValue::NoValue),
        AzCssPropertyType::TabWidth => AzCssProperty::TabWidth(AzStyleTabWidthValue::NoValue),
        AzCssPropertyType::Cursor => AzCssProperty::Cursor(AzStyleCursorValue::NoValue),
        AzCssPropertyType::Display => AzCssProperty::Display(AzLayoutDisplayValue::NoValue),
        AzCssPropertyType::Float => AzCssProperty::Float(AzLayoutFloatValue::NoValue),
        AzCssPropertyType::BoxSizing => AzCssProperty::BoxSizing(AzLayoutBoxSizingValue::NoValue),
        AzCssPropertyType::Width => AzCssProperty::Width(AzLayoutWidthValue::NoValue),
        AzCssPropertyType::Height => AzCssProperty::Height(AzLayoutHeightValue::NoValue),
        AzCssPropertyType::MinWidth => AzCssProperty::MinWidth(AzLayoutMinWidthValue::NoValue),
        AzCssPropertyType::MinHeight => AzCssProperty::MinHeight(AzLayoutMinHeightValue::NoValue),
        AzCssPropertyType::MaxWidth => AzCssProperty::MaxWidth(AzLayoutMaxWidthValue::NoValue),
        AzCssPropertyType::MaxHeight => AzCssProperty::MaxHeight(AzLayoutMaxHeightValue::NoValue),
        AzCssPropertyType::Position => AzCssProperty::Position(AzLayoutPositionValue::NoValue),
        AzCssPropertyType::Top => AzCssProperty::Top(AzLayoutTopValue::NoValue),
        AzCssPropertyType::Right => AzCssProperty::Right(AzLayoutRightValue::NoValue),
        AzCssPropertyType::Left => AzCssProperty::Left(AzLayoutLeftValue::NoValue),
        AzCssPropertyType::Bottom => AzCssProperty::Bottom(AzLayoutBottomValue::NoValue),
        AzCssPropertyType::FlexWrap => AzCssProperty::FlexWrap(AzLayoutFlexWrapValue::NoValue),
        AzCssPropertyType::FlexDirection => AzCssProperty::FlexDirection(AzLayoutFlexDirectionValue::NoValue),
        AzCssPropertyType::FlexGrow => AzCssProperty::FlexGrow(AzLayoutFlexGrowValue::NoValue),
        AzCssPropertyType::FlexShrink => AzCssProperty::FlexShrink(AzLayoutFlexShrinkValue::NoValue),
        AzCssPropertyType::JustifyContent => AzCssProperty::JustifyContent(AzLayoutJustifyContentValue::NoValue),
        AzCssPropertyType::AlignItems => AzCssProperty::AlignItems(AzLayoutAlignItemsValue::NoValue),
        AzCssPropertyType::AlignContent => AzCssProperty::AlignContent(AzLayoutAlignContentValue::NoValue),
        AzCssPropertyType::Background => AzCssProperty::BackgroundContent(AzStyleBackgroundContentVecValue::NoValue),
        AzCssPropertyType::BackgroundImage => AzCssProperty::BackgroundContent(AzStyleBackgroundContentVecValue::NoValue),
        AzCssPropertyType::BackgroundColor => AzCssProperty::BackgroundContent(AzStyleBackgroundContentVecValue::NoValue),
        AzCssPropertyType::BackgroundPosition => AzCssProperty::BackgroundPosition(AzStyleBackgroundPositionVecValue::NoValue),
        AzCssPropertyType::BackgroundSize => AzCssProperty::BackgroundSize(AzStyleBackgroundSizeVecValue::NoValue),
        AzCssPropertyType::BackgroundRepeat => AzCssProperty::BackgroundRepeat(AzStyleBackgroundRepeatVecValue::NoValue),
        AzCssPropertyType::OverflowX => AzCssProperty::OverflowX(AzLayoutOverflowValue::NoValue),
        AzCssPropertyType::OverflowY => AzCssProperty::OverflowY(AzLayoutOverflowValue::NoValue),
        AzCssPropertyType::PaddingTop => AzCssProperty::PaddingTop(AzLayoutPaddingTopValue::NoValue),
        AzCssPropertyType::PaddingLeft => AzCssProperty::PaddingLeft(AzLayoutPaddingLeftValue::NoValue),
        AzCssPropertyType::PaddingRight => AzCssProperty::PaddingRight(AzLayoutPaddingRightValue::NoValue),
        AzCssPropertyType::PaddingBottom => AzCssProperty::PaddingBottom(AzLayoutPaddingBottomValue::NoValue),
        AzCssPropertyType::MarginTop => AzCssProperty::MarginTop(AzLayoutMarginTopValue::NoValue),
        AzCssPropertyType::MarginLeft => AzCssProperty::MarginLeft(AzLayoutMarginLeftValue::NoValue),
        AzCssPropertyType::MarginRight => AzCssProperty::MarginRight(AzLayoutMarginRightValue::NoValue),
        AzCssPropertyType::MarginBottom => AzCssProperty::MarginBottom(AzLayoutMarginBottomValue::NoValue),
        AzCssPropertyType::BorderTopLeftRadius => AzCssProperty::BorderTopLeftRadius(AzStyleBorderTopLeftRadiusValue::NoValue),
        AzCssPropertyType::BorderTopRightRadius => AzCssProperty::BorderTopRightRadius(AzStyleBorderTopRightRadiusValue::NoValue),
        AzCssPropertyType::BorderBottomLeftRadius => AzCssProperty::BorderBottomLeftRadius(AzStyleBorderBottomLeftRadiusValue::NoValue),
        AzCssPropertyType::BorderBottomRightRadius => AzCssProperty::BorderBottomRightRadius(AzStyleBorderBottomRightRadiusValue::NoValue),
        AzCssPropertyType::BorderTopColor => AzCssProperty::BorderTopColor(AzStyleBorderTopColorValue::NoValue),
        AzCssPropertyType::BorderRightColor => AzCssProperty::BorderRightColor(AzStyleBorderRightColorValue::NoValue),
        AzCssPropertyType::BorderLeftColor => AzCssProperty::BorderLeftColor(AzStyleBorderLeftColorValue::NoValue),
        AzCssPropertyType::BorderBottomColor => AzCssProperty::BorderBottomColor(AzStyleBorderBottomColorValue::NoValue),
        AzCssPropertyType::BorderTopStyle => AzCssProperty::BorderTopStyle(AzStyleBorderTopStyleValue::NoValue),
        AzCssPropertyType::BorderRightStyle => AzCssProperty::BorderRightStyle(AzStyleBorderRightStyleValue::NoValue),
        AzCssPropertyType::BorderLeftStyle => AzCssProperty::BorderLeftStyle(AzStyleBorderLeftStyleValue::NoValue),
        AzCssPropertyType::BorderBottomStyle => AzCssProperty::BorderBottomStyle(AzStyleBorderBottomStyleValue::NoValue),
        AzCssPropertyType::BorderTopWidth => AzCssProperty::BorderTopWidth(AzLayoutBorderTopWidthValue::NoValue),
        AzCssPropertyType::BorderRightWidth => AzCssProperty::BorderRightWidth(AzLayoutBorderRightWidthValue::NoValue),
        AzCssPropertyType::BorderLeftWidth => AzCssProperty::BorderLeftWidth(AzLayoutBorderLeftWidthValue::NoValue),
        AzCssPropertyType::BorderBottomWidth => AzCssProperty::BorderBottomWidth(AzLayoutBorderBottomWidthValue::NoValue),
        AzCssPropertyType::BoxShadowLeft => AzCssProperty::BoxShadowLeft(AzStyleBoxShadowValue::NoValue),
        AzCssPropertyType::BoxShadowRight => AzCssProperty::BoxShadowRight(AzStyleBoxShadowValue::NoValue),
        AzCssPropertyType::BoxShadowTop => AzCssProperty::BoxShadowTop(AzStyleBoxShadowValue::NoValue),
        AzCssPropertyType::BoxShadowBottom => AzCssProperty::BoxShadowBottom(AzStyleBoxShadowValue::NoValue),
        AzCssPropertyType::ScrollbarStyle => AzCssProperty::ScrollbarStyle(AzScrollbarStyleValue::NoValue),
        AzCssPropertyType::Opacity => AzCssProperty::Opacity(AzStyleOpacityValue::NoValue),
        AzCssPropertyType::Transform => AzCssProperty::Transform(AzStyleTransformVecValue::NoValue),
        AzCssPropertyType::PerspectiveOrigin => AzCssProperty::PerspectiveOrigin(AzStylePerspectiveOriginValue::NoValue),
        AzCssPropertyType::TransformOrigin => AzCssProperty::TransformOrigin(AzStyleTransformOriginValue::NoValue),
        AzCssPropertyType::BackfaceVisibility => AzCssProperty::BackfaceVisibility(AzStyleBackfaceVisibilityValue::NoValue),
    }
}

/// The `auto` form of the property named by `pt`.
pub open spec fn spec_auto(pt: AzCssPropertyType) -> AzCssProperty {
    match pt {
        AzCssPropertyType::TextColor => AzCssProperty::TextColor(AzStyleTextColorValue::Auto),
        AzCssPropertyType::FontSize => AzCssProperty::FontSize(AzStyleFontSizeValue::Auto),
        AzCssPropertyType::FontFamily => AzCssProperty::FontFamily(AzStyleFontFamilyValue::Auto),
        AzCssPropertyType::TextAlign => AzCssProperty::TextAlign(AzStyleTextAlignmentHorzValue::Auto),
        AzCssPropertyType::LetterSpacing => AzCssProperty::LetterSpacing(AzStyleLetterSpacingValue::Auto),
        AzCssPropertyType::LineHeight => AzCssProperty::LineHeight(AzStyleLineHeightValue::Auto),
        AzCssPropertyType::WordSpacing => AzCssProperty::WordSpacing(AzStyleWordSpacingValue::Auto),
        AzCssPropertyType::TabWidth => AzCssProperty::TabWidth(AzStyleTabWidthValue::Auto),
        AzCssPropertyType::Cursor => AzCssProperty::Cursor(AzStyleCursorValue::Auto),
        AzCssPropertyType::Display => AzCssProperty::Display(AzLayoutDisplayValue::Auto),
        AzCssPropertyType::Float => AzCssProperty::Float(AzLayoutFloatValue::Auto),
        AzCssPropertyType::BoxSizing => AzCssProperty::BoxSizing(AzLayoutBoxSizingValue::Auto),
        AzCssPropertyType::Width => AzCssProperty::Width(AzLayoutWidthValue::Auto),
        AzCssPropertyType::Height => AzCssProperty::Height(AzLayoutHeightValue::Auto),
        AzCssPropertyType::MinWidth => AzCssProperty::MinWidth(AzLayoutMinWidthValue::Auto),
        AzCssPropertyType::MinHeight => AzCssProperty::MinHeight(AzLayoutMinHeightValue::Auto),
        AzCssPropertyType::MaxWidth => AzCssProperty::MaxWidth(AzLayoutMaxWidthValue::Auto),
        AzCssPropertyType::MaxHeight => AzCssProperty::MaxHeight(AzLayoutMaxHeightValue::Auto),
        AzCssPropertyType::Position => AzCssProperty::Position(AzLayoutPositionValue::Auto),
        AzCssPropertyType::Top => AzCssProperty::Top(AzLayoutTopValue::Auto),
        AzCssPropertyType::Right => AzCssProperty::Right(AzLayoutRightValue::Auto),
        AzCssPropertyType::Left => AzCssProperty::Left(AzLayoutLeftValue::Auto),
        AzCssPropertyType::Bottom => AzCssProperty::Bottom(AzLayoutBottomValue::Auto),
        AzCssPropertyType::FlexWrap => AzCssProperty::FlexWrap(AzLayoutFlexWrapValue::Auto),
        AzCssPropertyType::FlexDirection => AzCssProperty::FlexDirection(AzLayoutFlexDirectionValue::Auto),
        AzCssPropertyType::FlexGrow => AzCssProperty::FlexGrow(AzLayoutFlexGrowValue::Auto),
        AzCssPropertyType::FlexShrink => AzCssProperty::FlexShrink(AzLayoutFlexShrinkValue::Auto),
        AzCssPropertyType::JustifyContent => AzCssProperty::JustifyContent(AzLayoutJustifyContentValue::Auto),
        AzCssPropertyType::AlignItems => AzCssProperty::AlignItems(AzLayoutAlignItemsValue::Auto),
        AzCssPropertyType::AlignContent => AzCssProperty::AlignContent(AzLayoutAlignContentValue::Auto),
        AzCssPropertyType::Background => AzCssProperty::BackgroundContent(AzStyleBackgroundContentVecValue::Auto),
        AzCssPropertyType::BackgroundImage => AzCssProperty::BackgroundContent(AzStyleBackgroundContentVecValue::Auto),
        AzCssPropertyType::BackgroundColor => AzCssProperty::BackgroundContent(AzStyleBackgroundContentVecValue::Auto),
        AzCssPropertyType::BackgroundPosition => AzCssProperty::BackgroundPosition(AzStyleBackgroundPositionVecValue::Auto),
        AzCssPropertyType::BackgroundSize => AzCssProperty::BackgroundSize(AzStyleBackgroundSizeVecValue::Auto),
        AzCssPropertyType::BackgroundRepeat => AzCssProperty::BackgroundRepeat(AzStyleBackgroundRepeatVecValue::Auto),
        AzCssPropertyType::OverflowX => AzCssProperty::OverflowX(AzLayoutOverflowValue::Auto),
        AzCssPropertyType::OverflowY => AzCssProperty::OverflowY(AzLayoutOverflowValue::Auto),
        AzCssPropertyType::PaddingTop => AzCssProperty::PaddingTop(AzLayoutPaddingTopValue::Auto),
        AzCssPropertyType::PaddingLeft => AzCssProperty::PaddingLeft(AzLayoutPaddingLeftValue::Auto),
        AzCssPropertyType::PaddingRight => AzCssProperty::PaddingRight(AzLayoutPaddingRightValue::Auto),
        AzCssPropertyType::PaddingBottom => AzCssProperty::PaddingBottom(AzLayoutPaddingBottomValue::Auto),
        AzCssPropertyType::MarginTop => AzCssProperty::MarginTop(AzLayoutMarginTopValue::Auto),
        AzCssPropertyType::MarginLeft => AzCssProperty::MarginLeft(AzLayoutMarginLeftValue::Auto),
        AzCssPropertyType::MarginRight => AzCssProperty::MarginRight(AzLayoutMarginRightValue::Auto),
        AzCssPropertyType::MarginBottom => AzCssProperty::MarginBottom(AzLayoutMarginBottomValue::Auto),
        AzCssPropertyType::BorderTopLeftRadius => AzCssProperty::BorderTopLeftRadius(AzStyleBorderTopLeftRadiusValue::Auto),
        AzCssPropertyType::BorderTopRightRadius => AzCssProperty::BorderTopRightRadius(AzStyleBorderTopRightRadiusValue::Auto),
        AzCssPropertyType::BorderBottomLeftRadius => AzCssProperty::BorderBottomLeftRadius(AzStyleBorderBottomLeftRadiusValue::Auto),
        AzCssPropertyType::BorderBottomRightRadius => AzCssProperty::BorderBottomRightRadius(AzStyleBorderBottomRightRadiusValue::Auto),
        AzCssPropertyType::BorderTopColor => AzCssProperty::BorderTopColor(AzStyleBorderTopColorValue::Auto),
        AzCssPropertyType::BorderRightColor => AzCssProperty::BorderRightColor(AzStyleBorderRightColorValue::Auto),
        AzCssPropertyType::BorderLeftColor => AzCssProperty::BorderLeftColor(AzStyleBorderLeftColorValue::Auto),
        AzCssPropertyType::BorderBottomColor => AzCssProperty::BorderBottomColor(AzStyleBorderBottomColorValue::Auto),
        AzCssPropertyType::BorderTopStyle => AzCssProperty::BorderTopStyle(AzStyleBorderTopStyleValue::Auto),
        AzCssPropertyType::BorderRightStyle => AzCssProperty::BorderRightStyle(AzStyleBorderRightStyleValue::Auto),
        AzCssPropertyType::BorderLeftStyle => AzCssProperty::BorderLeftStyle(AzStyleBorderLeftStyleValue::Auto),
        AzCssPropertyType::BorderBottomStyle => AzCssProperty::BorderBottomStyle(AzStyleBorderBottomStyleValue::Auto),
        AzCssPropertyType::BorderTopWidth => AzCssProperty::BorderTopWidth(AzLayoutBorderTopWidthValue::Auto),
        AzCssPropertyType::BorderRightWidth => AzCssProperty::BorderRightWidth(AzLayoutBorderRightWidthValue::Auto),
        AzCssPropertyType::BorderLeftWidth => AzCssProperty::BorderLeftWidth(AzLayoutBorderLeftWidthValue::Auto),
        AzCssPropertyType::BorderBottomWidth => AzCssProperty::BorderBottomWidth(AzLayoutBorderBottomWidthValue::Auto),
        AzCssPropertyType::BoxShadowLeft => AzCssProperty::BoxShadowLeft(AzStyleBoxShadowValue::Auto),
        AzCssPropertyType::BoxShadowRight => AzCssProperty::BoxShadowRight(AzStyleBoxShadowValue::Auto),
        AzCssPropertyType::BoxShadowTop => AzCssProperty::BoxShadowTop(AzStyleBoxShadowValue::Auto),
        AzCssPropertyType::BoxShadowBottom => AzCssProperty::BoxShadowBottom(AzStyleBoxShadowValue::Auto),
        AzCssPropertyType::ScrollbarStyle => AzCssProperty::ScrollbarStyle(AzScrollbarStyleValue::Auto),
        AzCssPropertyType::Opacity => AzCssProperty::Opacity(AzStyleOpacityValue::Auto),
        AzCssPropertyType::Transform => AzCssProperty::Transform(AzStyleTransformVecValue::Auto),
        AzCssPropertyType::PerspectiveOrigin => AzCssProperty::PerspectiveOrigin(AzStylePerspectiveOriginValue::Auto),
        AzCssPropertyType::TransformOrigin => AzCssProperty::TransformOrigin(AzStyleTransformOriginValue::Auto),
        AzCssPropertyType::BackfaceVisibility => AzCssProperty::BackfaceVisibility(AzStyleBackfaceVisibilityValue::Auto),
    }
}

/// The `initial` form of the property named by `pt`.
pub open spec fn spec_initial(pt: AzCssPropertyType) -> AzCssProperty {
    match pt {
        AzCssPropertyType::TextColor => AzCssProperty::TextColor(AzStyleTextColorValue::Initial),
        AzCssPropertyType::FontSize => AzCssProperty::FontSize(AzStyleFontSizeValue::Initial),
        AzCssPropertyType::FontFamily => AzCssProperty::FontFamily(AzStyleFontFamilyValue::Initial),
        AzCssPropertyType::TextAlign => AzCssProperty::TextAlign(AzStyleTextAlignmentHorzValue::Initial),
        AzCssPropertyType::LetterSpacing => AzCssProperty::LetterSpacing(AzStyleLetterSpacingValue::Initial),
        AzCssPropertyType::LineHeight => AzCssProperty::LineHeight(AzStyleLineHeightValue::Initial),
        AzCssPropertyType::WordSpacing => AzCssProperty::WordSpacing(AzStyleWordSpacingValue::Initial),
        AzCssPropertyType::TabWidth => AzCssProperty::TabWidth(AzStyleTabWidthValue::Initial),
        AzCssPropertyType::Cursor => AzCssProperty::Cursor(AzStyleCursorValue::Initial),
        AzCssPropertyType::Display => AzCssProperty::Display(AzLayoutDisplayValue::Initial),
        AzCssPropertyType::Float => AzCssProperty::Float(AzLayoutFloatValue::Initial),
        AzCssPropertyType::BoxSizing => AzCssProperty::BoxSizing(AzLayoutBoxSizingValue::Initial),
        AzCssPropertyType::Width => AzCssProperty::Width(AzLayoutWidthValue::Initial),
        AzCssPropertyType::Height => AzCssProperty::Height(AzLayoutHeightValue::Initial),
        AzCssPropertyType::MinWidth => AzCssProperty::MinWidth(AzLayoutMinWidthValue::Initial),
        AzCssPropertyType::MinHeight => AzCssProperty::MinHeight(AzLayoutMinHeightValue::Initial),
        AzCssPropertyType::MaxWidth => AzCssProperty::MaxWidth(AzLayoutMaxWidthValue::Initial),
        AzCssPropertyType::MaxHeight => AzCssProperty::MaxHeight(AzLayoutMaxHeightValue::Initial),
        AzCssPropertyType::Position => AzCssProperty::Position(AzLayoutPositionValue::Initial),
        AzCssPropertyType::Top => AzCssProperty::Top(AzLayoutTopValue::Initial),
        AzCssPropertyType::Right => AzCssProperty::Right(AzLayoutRightValue::Initial),
        AzCssPropertyType::Left => AzCssProperty::Left(AzLayoutLeftValue::Initial),
        AzCssPropertyType::Bottom => AzCssProperty::Bottom(AzLayoutBottomValue::Initial),
        AzCssPropertyType::FlexWrap => AzCssProperty::FlexWrap(AzLayoutFlexWrapValue::Initial),
        AzCssPropertyType::FlexDirection => AzCssProperty::FlexDirection(AzLayoutFlexDirectionValue::Initial),
        AzCssPropertyType::FlexGrow => AzCssProperty::FlexGrow(AzLayoutFlexGrowValue::Initial),
        AzCssPropertyType::FlexShrink => AzCssProperty::FlexShrink(AzLayoutFlexShrinkValue::Initial),
        AzCssPropertyType::JustifyContent => AzCssProperty::JustifyContent(AzLayoutJustifyContentValue::Initial),
        AzCssPropertyType::AlignItems => AzCssProperty::AlignItems(AzLayoutAlignItemsValue::Initial),
        AzCssPropertyType::AlignContent => AzCssProperty::AlignContent(AzLayoutAlignContentValue::Initial),
        AzCssPropertyType::Background => AzCssProperty::BackgroundContent(AzStyleBackgroundContentVecValue::Initial),
        AzCssPropertyType::BackgroundImage => AzCssProperty::BackgroundContent(AzStyleBackgroundContentVecValue::Initial),
        AzCssPropertyType::BackgroundColor => AzCssProperty::BackgroundContent(AzStyleBackgroundContentVecValue::Initial),
        AzCssPropertyType::BackgroundPosition => AzCssProperty::BackgroundPosition(AzStyleBackgroundPositionVecValue::Initial),
        AzCssPropertyType::BackgroundSize => AzCssProperty::BackgroundSize(AzStyleBackgroundSizeVecValue::Initial),
        AzCssPropertyType::BackgroundRepeat => AzCssProperty::BackgroundRepeat(AzStyleBackgroundRepeatVecValue::Initial),
        AzCssPropertyType::OverflowX => AzCssProperty::OverflowX(AzLayoutOverflowValue::Initial),
        AzCssPropertyType::OverflowY => AzCssProperty::OverflowY(AzLayoutOverflowValue::Initial),
        AzCssPropertyType::PaddingTop => AzCssProperty::PaddingTop(AzLayoutPaddingTopValue::Initial),
        AzCssPropertyType::PaddingLeft => AzCssProperty::PaddingLeft(AzLayoutPaddingLeftValue::Initial),
        AzCssPropertyType::PaddingRight => AzCssProperty::PaddingRight(AzLayoutPaddingRightValue::Initial),
        AzCssPropertyType::PaddingBottom => AzCssProperty::PaddingBottom(AzLayoutPaddingBottomValue::Initial),
        AzCssPropertyType::MarginTop => AzCssProperty::MarginTop(AzLayoutMarginTopValue::Initial),
        AzCssPropertyType::MarginLeft => AzCssProperty::MarginLeft(AzLayoutMarginLeftValue::Initial),
        AzCssPropertyType::MarginRight => AzCssProperty::MarginRight(AzLayoutMarginRightValue::Initial),
        AzCssPropertyType::MarginBottom => AzCssProperty::MarginBottom(AzLayoutMarginBottomValue::Initial),
        AzCssPropertyType::BorderTopLeftRadius => AzCssProperty::BorderTopLeftRadius(AzStyleBorderTopLeftRadiusValue::Initial),
        AzCssPropertyType::BorderTopRightRadius => AzCssProperty::BorderTopRightRadius(AzStyleBorderTopRightRadiusValue::Initial),
        AzCssPropertyType::BorderBottomLeftRadius => AzCssProperty::BorderBottomLeftRadius(AzStyleBorderBottomLeftRadiusValue::Initial),
        AzCssPropertyType::BorderBottomRightRadius => AzCssProperty::BorderBottomRightRadius(AzStyleBorderBottomRightRadiusValue::Initial),
        AzCssPropertyType::BorderTopColor => AzCssProperty::BorderTopColor(AzStyleBorderTopColorValue::Initial),
        AzCssPropertyType::BorderRightColor => AzCssProperty::BorderRightColor(AzStyleBorderRightColorValue::Initial),
        AzCssPropertyType::BorderLeftColor => AzCssProperty::BorderLeftColor(AzStyleBorderLeftColorValue::Initial),
        AzCssPropertyType::BorderBottomColor => AzCssProperty::BorderBottomColor(AzStyleBorderBottomColorValue::Initial),
        AzCssPropertyType::BorderTopStyle => AzCssProperty::BorderTopStyle(AzStyleBorderTopStyleValue::Initial),
        AzCssPropertyType::BorderRightStyle => AzCssProperty::BorderRightStyle(AzStyleBorderRightStyleValue::Initial),
        AzCssPropertyType::BorderLeftStyle => AzCssProperty::BorderLeftStyle(AzStyleBorderLeftStyleValue::Initial),
        AzCssPropertyType::BorderBottomStyle => AzCssProperty::BorderBottomStyle(AzStyleBorderBottomStyleValue::Initial),
        AzCssPropertyType::BorderTopWidth => AzCssProperty::BorderTopWidth(AzLayoutBorderTopWidthValue::Initial),
        AzCssPropertyType::BorderRightWidth => AzCssProperty::BorderRightWidth(AzLayoutBorderRightWidthValue::Initial),
        AzCssPropertyType::BorderLeftWidth => AzCssProperty::BorderLeftWidth(AzLayoutBorderLeftWidthValue::Initial),
        AzCssPropertyType::BorderBottomWidth => AzCssProperty::BorderBottomWidth(AzLayoutBorderBottomWidthValue::Initial),
        AzCssPropertyType::BoxShadowLeft => AzCssProperty::BoxShadowLeft(AzStyleBoxShadowValue::Initial),
        AzCssPropertyType::BoxShadowRight => AzCssProperty::BoxShadowRight(AzStyleBoxShadowValue::Initial),
        AzCssPropertyType::BoxShadowTop => AzCssProperty::BoxShadowTop(AzStyleBoxShadowValue::Initial),
        AzCssPropertyType::BoxShadowBottom => AzCssProperty::BoxShadowBottom(AzStyleBoxShadowValue::Initial),
        AzCssPropertyType::ScrollbarStyle => AzCssProperty::ScrollbarStyle(AzScrollbarStyleValue::Initial),
        AzCssPropertyType::Opacity => AzCssProperty::Opacity(AzStyleOpacityValue::Initial),
        AzCssPropertyType::Transform => AzCssProperty::Transform(AzStyleTransformVecValue::Initial),
        AzCssPropertyType::PerspectiveOrigin => AzCssProperty::PerspectiveOrigin(AzStylePerspectiveOriginValue::Initial),
        AzCssPropertyType::TransformOrigin => AzCssProperty::TransformOrigin(AzStyleTransformOriginValue::Initial),
        AzCssPropertyType::BackfaceVisibility => AzCssProperty::BackfaceVisibility(AzStyleBackfaceVisibilityValue::Initial),
    }
}

/// The `inherit` form of the property named by `pt`.
pub open spec fn spec_inherit(pt: AzCssPropertyType) -> AzCssProperty {
    match pt {
        AzCssPropertyType::TextColor => AzCssProperty::TextColor(AzStyleTextColorValue::Inherit),
        AzCssPropertyType::FontSize => AzCssProperty::FontSize(AzStyleFontSizeValue::Inherit),
        AzCssPropertyType::FontFamily => AzCssProperty::FontFamily(AzStyleFontFamilyValue::Inherit),
        AzCssPropertyType::TextAlign => AzCssProperty::TextAlign(AzStyleTextAlignmentHorzValue::Inherit),
        AzCssPropertyType::LetterSpacing => AzCssProperty::LetterSpacing(AzStyleLetterSpacingValue::Inherit),
        AzCssPropertyType::LineHeight => AzCssProperty::LineHeight(AzStyleLineHeightValue::Inherit),
        AzCssPropertyType::WordSpacing => AzCssProperty::WordSpacing(AzStyleWordSpacingValue::Inherit),
        AzCssPropertyType::TabWidth => AzCssProperty::TabWidth(AzStyleTabWidthValue::Inherit),
        AzCssPropertyType::Cursor => AzCssProperty::Cursor(AzStyleCursorValue::Inherit),
        AzCssPropertyType::Display => AzCssProperty::Display(AzLayoutDisplayValue::Inherit),
        AzCssPropertyType::Float => AzCssProperty::Float(AzLayoutFloatValue::Inherit),
        AzCssPropertyType::BoxSizing => AzCssProperty::BoxSizing(AzLayoutBoxSizingValue::Inherit),
        AzCssPropertyType::Width => AzCssProperty::Width(AzLayoutWidthValue::Inherit),
        AzCssPropertyType::Height => AzCssProperty::Height(AzLayoutHeightValue::Inherit),
        AzCssPropertyType::MinWidth => AzCssProperty::MinWidth(AzLayoutMinWidthValue::Inherit),
        AzCssPropertyType::MinHeight => AzCssProperty::MinHeight(AzLayoutMinHeightValue::Inherit),
        AzCssPropertyType::MaxWidth => AzCssProperty::MaxWidth(AzLayoutMaxWidthValue::Inherit),
        AzCssPropertyType::MaxHeight => AzCssProperty::MaxHeight(AzLayoutMaxHeightValue::Inherit),
        AzCssPropertyType::Position => AzCssProperty::Position(AzLayoutPositionValue::Inherit),
        AzCssPropertyType::Top => AzCssProperty::Top(AzLayoutTopValue::Inherit),
        AzCssPropertyType::Right => AzCssProperty::Right(AzLayoutRightValue::Inherit),
        AzCssPropertyType::Left => AzCssProperty::Left(AzLayoutLeftValue::Inherit),
        AzCssPropertyType::Bottom => AzCssProperty::Bottom(AzLayoutBottomValue::Inherit),
        AzCssPropertyType::FlexWrap => AzCssProperty::FlexWrap(AzLayoutFlexWrapValue::Inherit),
        AzCssPropertyType::FlexDirection => AzCssProperty::FlexDirection(AzLayoutFlexDirectionValue::Inherit),
        AzCssPropertyType::FlexGrow => AzCssProperty::FlexGrow(AzLayoutFlexGrowValue::Inherit),
        AzCssPropertyType::FlexShrink => AzCssProperty::FlexShrink(AzLayoutFlexShrinkValue::Inherit),
        AzCssPropertyType::JustifyContent => AzCssProperty::JustifyContent(AzLayoutJustifyContentValue::Inherit),
        AzCssPropertyType::AlignItems => AzCssProperty::AlignItems(AzLayoutAlignItemsValue::Inherit),
        AzCssPropertyType::AlignContent => AzCssProperty::AlignContent(AzLayoutAlignContentValue::Inherit),
        AzCssPropertyType::Background => AzCssProperty::BackgroundContent(AzStyleBackgroundContentVecValue::Inherit),
        AzCssPropertyType::BackgroundImage => AzCssProperty::BackgroundContent(AzStyleBackgroundContentVecValue::Inherit),
        AzCssPropertyType::BackgroundColor => AzCssProperty::BackgroundContent(AzStyleBackgroundContentVecValue::Inherit),
        AzCssPropertyType::BackgroundPosition => AzCssProperty::BackgroundPosition(AzStyleBackgroundPositionVecValue::Inherit),
        AzCssPropertyType::BackgroundSize => AzCssProperty::BackgroundSize(AzStyleBackgroundSizeVecValue::Inherit),
        AzCssPropertyType::BackgroundRepeat => AzCssProperty::BackgroundRepeat(AzStyleBackgroundRepeatVecValue::Inherit),
        AzCssPropertyType::OverflowX => AzCssProperty::OverflowX(AzLayoutOverflowValue::Inherit),
        AzCssPropertyType::OverflowY => AzCssProperty::OverflowY(AzLayoutOverflowValue::Inherit),
        AzCssPropertyType::PaddingTop => AzCssProperty::PaddingTop(AzLayoutPaddingTopValue::Inherit),
        AzCssPropertyType::PaddingLeft => AzCssProperty::PaddingLeft(AzLayoutPaddingLeftValue::Inherit),
        AzCssPropertyType::PaddingRight => AzCssProperty::PaddingRight(AzLayoutPaddingRightValue::Inherit),
        AzCssPropertyType::PaddingBottom => AzCssProperty::PaddingBottom(AzLayoutPaddingBottomValue::Inherit),
        AzCssPropertyType::MarginTop => AzCssProperty::MarginTop(AzLayoutMarginTopValue::Inherit),
        AzCssPropertyType::MarginLeft => AzCssProperty::MarginLeft(AzLayoutMarginLeftValue::Inherit),
        AzCssPropertyType::MarginRight => AzCssProperty::MarginRight(AzLayoutMarginRightValue::Inherit),
        AzCssPropertyType::MarginBottom => AzCssProperty::MarginBottom(AzLayoutMarginBottomValue::Inherit),
        AzCssPropertyType::BorderTopLeftRadius => AzCssProperty::BorderTopLeftRadius(AzStyleBorderTopLeftRadiusValue::Inherit),
        AzCssPropertyType::BorderTopRightRadius => AzCssProperty::BorderTopRightRadius(AzStyleBorderTopRightRadiusValue::Inherit),
        AzCssPropertyType::BorderBottomLeftRadius => AzCssProperty::BorderBottomLeftRadius(AzStyleBorderBottomLeftRadiusValue::Inherit),
        AzCssPropertyType::BorderBottomRightRadius => AzCssProperty::BorderBottomRightRadius(AzStyleBorderBottomRightRadiusValue::Inherit),
        AzCssPropertyType::BorderTopColor => AzCssProperty::BorderTopColor(AzStyleBorderTopColorValue::Inherit),
        AzCssPropertyType::BorderRightColor => AzCssProperty::BorderRightColor(AzStyleBorderRightColorValue::Inherit),
        AzCssPropertyType::BorderLeftColor => AzCssProperty::BorderLeftColor(AzStyleBorderLeftColorValue::Inherit),
        AzCssPropertyType::BorderBottomColor => AzCssProperty::BorderBottomColor(AzStyleBorderBottomColorValue::Inherit),
        AzCssPropertyType::BorderTopStyle => AzCssProperty::BorderTopStyle(AzStyleBorderTopStyleValue::Inherit),
        AzCssPropertyType::BorderRightStyle => AzCssProperty::BorderRightStyle(AzStyleBorderRightStyleValue::Inherit),
        AzCssPropertyType::BorderLeftStyle => AzCssProperty::BorderLeftStyle(AzStyleBorderLeftStyleValue::Inherit),
        AzCssPropertyType::BorderBottomStyle => AzCssProperty::BorderBottomStyle(AzStyleBorderBottomStyleValue::Inherit),
        AzCssPropertyType::BorderTopWidth => AzCssProperty::BorderTopWidth(AzLayoutBorderTopWidthValue::Inherit),
        AzCssPropertyType::BorderRightWidth => AzCssProperty::BorderRightWidth(AzLayoutBorderRightWidthValue::Inherit),
        AzCssPropertyType::BorderLeftWidth => AzCssProperty::BorderLeftWidth(AzLayoutBorderLeftWidthValue::Inherit),
        AzCssPropertyType::BorderBottomWidth => AzCssProperty::BorderBottomWidth(AzLayoutBorderBottomWidthValue::Inherit),
        AzCssPropertyType::BoxShadowLeft => AzCssProperty::BoxShadowLeft(AzStyleBoxShadowValue::Inherit),
        AzCssPropertyType::BoxShadowRight => AzCssProperty::BoxShadowRight(AzStyleBoxShadowValue::Inherit),
        AzCssPropertyType::BoxShadowTop => AzCssProperty::BoxShadowTop(AzStyleBoxShadowValue::Inherit),
        AzCssPropertyType::BoxShadowBottom => AzCssProperty::BoxShadowBottom(AzStyleBoxShadowValue::Inherit),
        AzCssPropertyType::ScrollbarStyle => AzCssProperty::ScrollbarStyle(AzScrollbarStyleValue::Inherit),
        AzCssPropertyType::Opacity => AzCssProperty::Opacity(AzStyleOpacityValue::Inherit),
        AzCssPropertyType::Transform => AzCssProperty::Transform(AzStyleTransformVecValue::Inherit),
        AzCssPropertyType::PerspectiveOrigin => AzCssProperty::PerspectiveOrigin(AzStylePerspectiveOriginValue::Inherit),
        AzCssPropertyType::TransformOrigin => AzCssProperty::TransformOrigin(AzStyleTransformOriginValue::Inherit),
        AzCssPropertyType::BackfaceVisibility => AzCssProperty::BackfaceVisibility(AzStyleBackfaceVisibilityValue::Inherit),
    }
}

impl CssProperty {
    /// The key (property name) of this value, as a statically typed enum.
    pub fn get_type(&self) -> (r: AzCssPropertyType)
        ensures
            r == spec_get_type(*self),
    {
        match self {
            AzCssProperty::TextColor(_) => AzCssPropertyType::TextColor,
            AzCssProperty::FontSize(_) => AzCssPropertyType::FontSize,
            AzCssProperty::FontFamily(_) => AzCssPropertyType::FontFamily,
            AzCssProperty::TextAlign(_) => AzCssPropertyType::TextAlign,
            AzCssProperty::LetterSpacing(_) => AzCssPropertyType::LetterSpacing,
            AzCssProperty::LineHeight(_) => AzCssPropertyType::LineHeight,
            AzCssProperty::WordSpacing(_) => AzCssPropertyType::WordSpacing,
            AzCssProperty::TabWidth(_) => AzCssPropertyType::TabWidth,
            AzCssProperty::Cursor(_) => AzCssPropertyType::Cursor,
            AzCssProperty::Display(_) => AzCssPropertyType::Display,
            AzCssProperty::Float(_) => AzCssPropertyType::Float,
            AzCssProperty::BoxSizing(_) => AzCssPropertyType::BoxSizing,
            AzCssProperty::Width(_) => AzCssPropertyType::Width,
            AzCssProperty::Height(_) => AzCssPropertyType::Height,
            AzCssProperty::MinWidth(_) => AzCssPropertyType::MinWidth,
            AzCssProperty::MinHeight(_) => AzCssPropertyType::MinHeight,
            AzCssProperty::MaxWidth(_) => AzCssPropertyType::MaxWidth,
            AzCssProperty::MaxHeight(_) => AzCssPropertyType::MaxHeight,
            AzCssProperty::Position(_) => AzCssPropertyType::Position,
            AzCssProperty::Top(_) => AzCssPropertyType::Top,
            AzCssProperty::Right(_) => AzCssPropertyType::Right,
            AzCssProperty::Left(_) => AzCssPropertyType::Left,
            AzCssProperty::Bottom(_) => AzCssPropertyType::Bottom,
            AzCssProperty::FlexWrap(_) => AzCssPropertyType::FlexWrap,
            AzCssProperty::FlexDirection(_) => AzCssPropertyType::FlexDirection,
            AzCssProperty::FlexGrow(_) => AzCssPropertyType::FlexGrow,
            AzCssProperty::FlexShrink(_) => AzCssPropertyType::FlexShrink,
            AzCssProperty::JustifyContent(_) => AzCssPropertyType::JustifyContent,
            AzCssProperty::AlignItems(_) => AzCssPropertyType::AlignItems,
            AzCssProperty::AlignContent(_) => AzCssPropertyType::AlignContent,
            AzCssProperty::BackgroundContent(_) => AzCssPropertyType::BackgroundImage,
            AzCssProperty::BackgroundPosition(_) => AzCssPropertyType::BackgroundPosition,
            AzCssProperty::BackgroundSize(_) => AzCssPropertyType::BackgroundSize,
            AzCssProperty::BackgroundRepeat(_) => AzCssPropertyType::BackgroundRepeat,
            AzCssProperty::OverflowX(_) => AzCssPropertyType::OverflowX,
            AzCssProperty::OverflowY(_) => AzCssPropertyType::OverflowY,
            AzCssProperty::PaddingTop(_) => AzCssPropertyType::PaddingTop,
            AzCssProperty::PaddingLeft(_) => AzCssPropertyType::PaddingLeft,
            AzCssProperty::PaddingRight(_) => AzCssPropertyType::PaddingRight,
            AzCssProperty::PaddingBottom(_) => AzCssPropertyType::PaddingBottom,
            AzCssProperty::MarginTop(_) => AzCssPropertyType::MarginTop,
            AzCssProperty::MarginLeft(_) => AzCssPropertyType::MarginLeft,
            AzCssProperty::MarginRight(_) => AzCssPropertyType::MarginRight,
            AzCssProperty::MarginBottom(_) => AzCssPropertyType::MarginBottom,
            AzCssProperty::BorderTopLeftRadius(_) => AzCssPropertyType::BorderTopLeftRadius,
            AzCssProperty::BorderTopRightRadius(_) => AzCssPropertyType::BorderTopRightRadius,
            AzCssProperty::BorderBottomLeftRadius(_) => AzCssPropertyType::BorderBottomLeftRadius,
            AzCssProperty::BorderBottomRightRadius(_) => AzCssPropertyType::BorderBottomRightRadius,
            AzCssProperty::BorderTopColor(_) => AzCssPropertyType::BorderTopColor,
            AzCssProperty::BorderRightColor(_) => AzCssPropertyType::BorderRightColor,
            AzCssProperty::BorderLeftColor(_) => AzCssPropertyType::BorderLeftColor,
            AzCssProperty::BorderBottomColor(_) => AzCssPropertyType::BorderBottomColor,
            AzCssProperty::BorderTopStyle(_) => AzCssPropertyType::BorderTopStyle,
            AzCssProperty::BorderRightStyle(_) => AzCssPropertyType::BorderRightStyle,
            AzCssProperty::BorderLeftStyle(_) => AzCssPropertyType::BorderLeftStyle,
            AzCssProperty::BorderBottomStyle(_) => AzCssPropertyType::BorderBottomStyle,
            AzCssProperty::BorderTopWidth(_) => AzCssPropertyType::BorderTopWidth,
            AzCssProperty::BorderRightWidth(_) => AzCssPropertyType::BorderRightWidth,
            AzCssProperty::BorderLeftWidth(_) => AzCssPropertyType::BorderLeftWidth,
            AzCssProperty::BorderBottomWidth(_) => AzCssPropertyType::BorderBottomWidth,
            AzCssProperty::BoxShadowLeft(_) => AzCssPropertyType::BoxShadowLeft,
            AzCssProperty::BoxShadowRight(_) => AzCssPropertyType::BoxShadowRight,
            AzCssProperty::BoxShadowTop(_) => AzCssPropertyType::BoxShadowTop,
            AzCssProperty::BoxShadowBottom(_) => AzCssPropertyType::BoxShadowBottom,
            AzCssProperty::ScrollbarStyle(_) => AzCssPropertyType::ScrollbarStyle,
            AzCssProperty::Opacity(_) => AzCssPropertyType::Opacity,
            AzCssProperty::Transform(_) => AzCssPropertyType::Transform,
            AzCssProperty::PerspectiveOrigin(_) => AzCssPropertyType::PerspectiveOrigin,
            AzCssProperty::TransformOrigin(_) => AzCssPropertyType::TransformOrigin,
            AzCssProperty::BackfaceVisibility(_) => AzCssPropertyType::BackfaceVisibility,
        }
    }

    /// The `none` form of the property named by `prop_type`.
    pub fn none(prop_type: AzCssPropertyType) -> (r: AzCssProperty)
        ensures
            r == spec_none(prop_type),
    {
        match prop_type {
            AzCssPropertyType::TextColor => AzCssProperty::TextColor(AzStyleTextColorValue::NoValue),
            AzCssPropertyType::FontSize => AzCssProperty::FontSize(AzStyleFontSizeValue::NoValue),
            AzCssPropertyType::FontFamily => AzCssProperty::FontFamily(AzStyleFontFamilyValue::NoValue),
            AzCssPropertyType::TextAlign => AzCssProperty::TextAlign(AzStyleTextAlignmentHorzValue::NoValue),
            AzCssPropertyType::LetterSpacing => AzCssProperty::LetterSpacing(AzStyleLetterSpacingValue::NoValue),
            AzCssPropertyType::LineHeight => AzCssProperty::LineHeight(AzStyleLineHeightValue::NoValue),
            AzCssPropertyType::WordSpacing => AzCssProperty::WordSpacing(AzStyleWordSpacingValue::NoValue),
            AzCssPropertyType::TabWidth => AzCssProperty::TabWidth(AzStyleTabWidthValue::NoValue),
            AzCssPropertyType::Cursor => AzCssProperty::Cursor(AzStyleCursorValue::NoValue),
            AzCssPropertyType::Display => AzCssProperty::Display(AzLayoutDisplayValue::NoValue),
            AzCssPropertyType::Float => AzCssProperty::Float(AzLayoutFloatValue::NoValue),
            AzCssPropertyType::BoxSizing => AzCssProperty::BoxSizing(AzLayoutBoxSizingValue::NoValue),
            AzCssPropertyType::Width => AzCssProperty::Width(AzLayoutWidthValue::NoValue),
            AzCssPropertyType::Height => AzCssProperty::Height(AzLayoutHeightValue::NoValue),
            AzCssPropertyType::MinWidth => AzCssProperty::MinWidth(AzLayoutMinWidthValue::NoValue),
            AzCssPropertyType::MinHeight => AzCssProperty::MinHeight(AzLayoutMinHeightValue::NoValue),
            AzCssPropertyType::MaxWidth => AzCssProperty::MaxWidth(AzLayoutMaxWidthValue::NoValue),
            AzCssPropertyType::MaxHeight => AzCssProperty::MaxHeight(AzLayoutMaxHeightValue::NoValue),
            AzCssPropertyType::Position => AzCssProperty::Position(AzLayoutPositionValue::NoValue),
            AzCssPropertyType::Top => AzCssProperty::Top(AzLayoutTopValue::NoValue),
            AzCssPropertyType::Right => AzCssProperty::Right(AzLayoutRightValue::NoValue),
            AzCssPropertyType::Left => AzCssProperty::Left(AzLayoutLeftValue::NoValue),
            AzCssPropertyType::Bottom => AzCssProperty::Bottom(AzLayoutBottomValue::NoValue),
            AzCssPropertyType::FlexWrap => AzCssProperty::FlexWrap(AzLayoutFlexWrapValue::NoValue),
            AzCssPropertyType::FlexDirection => AzCssProperty::FlexDirection(AzLayoutFlexDirectionValue::NoValue),
            AzCssPropertyType::FlexGrow => AzCssProperty::FlexGrow(AzLayoutFlexGrowValue::NoValue),
            AzCssPropertyType::FlexShrink => AzCssProperty::FlexShrink(AzLayoutFlexShrinkValue::NoValue),
            AzCssPropertyType::JustifyContent => AzCssProperty::JustifyContent(AzLayoutJustifyContentValue::NoValue),
            AzCssPropertyType::AlignItems => AzCssProperty::AlignItems(AzLayoutAlignItemsValue::NoValue),
            AzCssPropertyType::AlignContent => AzCssProperty::AlignContent(AzLayoutAlignContentValue::NoValue),
            AzCssPropertyType::Background => AzCssProperty::BackgroundContent(AzStyleBackgroundContentVecValue::NoValue),
            AzCssPropertyType::BackgroundImage => AzCssProperty::BackgroundContent(AzStyleBackgroundContentVecValue::NoValue),
            AzCssPropertyType::BackgroundColor => AzCssProperty::BackgroundContent(AzStyleBackgroundContentVecValue::NoValue),
            AzCssPropertyType::BackgroundPosition => AzCssProperty::BackgroundPosition(AzStyleBackgroundPositionVecValue::NoValue),
            AzCssPropertyType::BackgroundSize => AzCssProperty::BackgroundSize(AzStyleBackgroundSizeVecValue::NoValue),
            AzCssPropertyType::BackgroundRepeat => AzCssProperty::BackgroundRepeat(AzStyleBackgroundRepeatVecValue::NoValue),
            AzCssPropertyType::OverflowX => AzCssProperty::OverflowX(AzLayoutOverflowValue::NoValue),
            AzCssPropertyType::OverflowY => AzCssProperty::OverflowY(AzLayoutOverflowValue::NoValue),
            AzCssPropertyType::PaddingTop => AzCssProperty::PaddingTop(AzLayoutPaddingTopValue::NoValue),
            AzCssPropertyType::PaddingLeft => AzCssProperty::PaddingLeft(AzLayoutPaddingLeftValue::NoValue),
            AzCssPropertyType::PaddingRight => AzCssProperty::PaddingRight(AzLayoutPaddingRightValue::NoValue),
            AzCssPropertyType::PaddingBottom => AzCssProperty::PaddingBottom(AzLayoutPaddingBottomValue::NoValue),
            AzCssPropertyType::MarginTop => AzCssProperty::MarginTop(AzLayoutMarginTopValue::NoValue),
            AzCssPropertyType::MarginLeft => AzCssProperty::MarginLeft(AzLayoutMarginLeftValue::NoValue),
            AzCssPropertyType::MarginRight => AzCssProperty::MarginRight(AzLayoutMarginRightValue::NoValue),
            AzCssPropertyType::MarginBottom => AzCssProperty::MarginBottom(AzLayoutMarginBottomValue::NoValue),
            AzCssPropertyType::BorderTopLeftRadius => AzCssProperty::BorderTopLeftRadius(AzStyleBorderTopLeftRadiusValue::NoValue),
            AzCssPropertyType::BorderTopRightRadius => AzCssProperty::BorderTopRightRadius(AzStyleBorderTopRightRadiusValue::NoValue),
            AzCssPropertyType::BorderBottomLeftRadius => AzCssProperty::BorderBottomLeftRadius(AzStyleBorderBottomLeftRadiusValue::NoValue),
            AzCssPropertyType::BorderBottomRightRadius => AzCssProperty::BorderBottomRightRadius(AzStyleBorderBottomRightRadiusValue::NoValue),
            AzCssPropertyType::BorderTopColor => AzCssProperty::BorderTopColor(AzStyleBorderTopColorValue::NoValue),
            AzCssPropertyType::BorderRightColor => AzCssProperty::BorderRightColor(AzStyleBorderRightColorValue::NoValue),
            AzCssPropertyType::BorderLeftColor => AzCssProperty::BorderLeftColor(AzStyleBorderLeftColorValue::NoValue),
            AzCssPropertyType::BorderBottomColor => AzCssProperty::BorderBottomColor(AzStyleBorderBottomColorValue::NoValue),
            AzCssPropertyType::BorderTopStyle => AzCssProperty::BorderTopStyle(AzStyleBorderTopStyleValue::NoValue),
            AzCssPropertyType::BorderRightStyle => AzCssProperty::BorderRightStyle(AzStyleBorderRightStyleValue::NoValue),
            AzCssPropertyType::BorderLeftStyle => AzCssProperty::BorderLeftStyle(AzStyleBorderLeftStyleValue::NoValue),
            AzCssPropertyType::BorderBottomStyle => AzCssProperty::BorderBottomStyle(AzStyleBorderBottomStyleValue::NoValue),
            AzCssPropertyType::BorderTopWidth => AzCssProperty::BorderTopWidth(AzLayoutBorderTopWidthValue::NoValue),
            AzCssPropertyType::BorderRightWidth => AzCssProperty::BorderRightWidth(AzLayoutBorderRightWidthValue::NoValue),
            AzCssPropertyType::BorderLeftWidth => AzCssProperty::BorderLeftWidth(AzLayoutBorderLeftWidthValue::NoValue),
            AzCssPropertyType::BorderBottomWidth => AzCssProperty::BorderBottomWidth(AzLayoutBorderBottomWidthValue::NoValue),
            AzCssPropertyType::BoxShadowLeft => AzCssProperty::BoxShadowLeft(AzStyleBoxShadowValue::NoValue),
            AzCssPropertyType::BoxShadowRight => AzCssProperty::BoxShadowRight(AzStyleBoxShadowValue::NoValue),
            AzCssPropertyType::BoxShadowTop => AzCssProperty::BoxShadowTop(AzStyleBoxShadowValue::NoValue),
            AzCssPropertyType::BoxShadowBottom => AzCssProperty::BoxShadowBottom(AzStyleBoxShadowValue::NoValue),
            AzCssPropertyType::ScrollbarStyle => AzCssProperty::ScrollbarStyle(AzScrollbarStyleValue::NoValue),
            AzCssPropertyType::Opacity => AzCssProperty::Opacity(AzStyleOpacityValue::NoValue),
            AzCssPropertyType::Transform => AzCssProperty::Transform(AzStyleTransformVecValue::NoValue),
            AzCssPropertyType::PerspectiveOrigin => AzCssProperty::PerspectiveOrigin(AzStylePerspectiveOriginValue::NoValue),
            AzCssPropertyType::TransformOrigin => AzCssProperty::TransformOrigin(AzStyleTransformOriginValue::NoValue),
            AzCssPropertyType::BackfaceVisibility => AzCssProperty::BackfaceVisibility(AzStyleBackfaceVisibilityValue::NoValue),
        }
    }

    /// The `auto` form of the property named by `prop_type`.
    pub fn auto(prop_type: AzCssPropertyType) -> (r: AzCssProperty)
        ensures
            r == spec_auto(prop_type),
    {
        match prop_type {
            AzCssPropertyType::TextColor => AzCssProperty::TextColor(AzStyleTextColorValue::Auto),
            AzCssPropertyType::FontSize => AzCssProperty::FontSize(AzStyleFontSizeValue::Auto),
            AzCssPropertyType::FontFamily => AzCssProperty::FontFamily(AzStyleFontFamilyValue::Auto),
            AzCssPropertyType::TextAlign => AzCssProperty::TextAlign(AzStyleTextAlignmentHorzValue::Auto),
            AzCssPropertyType::LetterSpacing => AzCssProperty::LetterSpacing(AzStyleLetterSpacingValue::Auto),
            AzCssPropertyType::LineHeight => AzCssProperty::LineHeight(AzStyleLineHeightValue::Auto),
            AzCssPropertyType::WordSpacing => AzCssProperty::WordSpacing(AzStyleWordSpacingValue::Auto),
            AzCssPropertyType::TabWidth => AzCssProperty::TabWidth(AzStyleTabWidthValue::Auto),
            AzCssPropertyType::Cursor => AzCssProperty::Cursor(AzStyleCursorValue::Auto),
            AzCssPropertyType::Display => AzCssProperty::Display(AzLayoutDisplayValue::Auto),
            AzCssPropertyType::Float => AzCssProperty::Float(AzLayoutFloatValue::Auto),
            AzCssPropertyType::BoxSizing => AzCssProperty::BoxSizing(AzLayoutBoxSizingValue::Auto),
            AzCssPropertyType::Width => AzCssProperty::Width(AzLayoutWidthValue::Auto),
            AzCssPropertyType::Height => AzCssProperty::Height(AzLayoutHeightValue::Auto),
            AzCssPropertyType::MinWidth => AzCssProperty::MinWidth(AzLayoutMinWidthValue::Auto),
            AzCssPropertyType::MinHeight => AzCssProperty::MinHeight(AzLayoutMinHeightValue::Auto),
            AzCssPropertyType::MaxWidth => AzCssProperty::MaxWidth(AzLayoutMaxWidthValue::Auto),
            AzCssPropertyType::MaxHeight => AzCssProperty::MaxHeight(AzLayoutMaxHeightValue::Auto),
            AzCssPropertyType::Position => AzCssProperty::Position(AzLayoutPositionValue::Auto),
            AzCssPropertyType::Top => AzCssProperty::Top(AzLayoutTopValue::Auto),
            AzCssPropertyType::Right => AzCssProperty::Right(AzLayoutRightValue::Auto),
            AzCssPropertyType::Left => AzCssProperty::Left(AzLayoutLeftValue::Auto),
            AzCssPropertyType::Bottom => AzCssProperty::Bottom(AzLayoutBottomValue::Auto),
            AzCssPropertyType::FlexWrap => AzCssProperty::FlexWrap(AzLayoutFlexWrapValue::Auto),
            AzCssPropertyType::FlexDirection => AzCssProperty::FlexDirection(AzLayoutFlexDirectionValue::Auto),
            AzCssPropertyType::FlexGrow => AzCssProperty::FlexGrow(AzLayoutFlexGrowValue::Auto),
            AzCssPropertyType::FlexShrink => AzCssProperty::FlexShrink(AzLayoutFlexShrinkValue::Auto),
            AzCssPropertyType::JustifyContent => AzCssProperty::JustifyContent(AzLayoutJustifyContentValue::Auto),
            AzCssPropertyType::AlignItems => AzCssProperty::AlignItems(AzLayoutAlignItemsValue::Auto),
            AzCssPropertyType::AlignContent => AzCssProperty::AlignContent(AzLayoutAlignContentValue::Auto),
            AzCssPropertyType::Background => AzCssProperty::BackgroundContent(AzStyleBackgroundContentVecValue::Auto),
            AzCssPropertyType::BackgroundImage => AzCssProperty::BackgroundContent(AzStyleBackgroundContentVecValue::Auto),
            AzCssPropertyType::BackgroundColor => AzCssProperty::BackgroundContent(AzStyleBackgroundContentVecValue::Auto),
            AzCssPropertyType::BackgroundPosition => AzCssProperty::BackgroundPosition(AzStyleBackgroundPositionVecValue::Auto),
            AzCssPropertyType::BackgroundSize => AzCssProperty::BackgroundSize(AzStyleBackgroundSizeVecValue::Auto),
            AzCssPropertyType::BackgroundRepeat => AzCssProperty::BackgroundRepeat(AzStyleBackgroundRepeatVecValue::Auto),
            AzCssPropertyType::OverflowX => AzCssProperty::OverflowX(AzLayoutOverflowValue::Auto),
            AzCssPropertyType::OverflowY => AzCssProperty::OverflowY(AzLayoutOverflowValue::Auto),
            AzCssPropertyType::PaddingTop => AzCssProperty::PaddingTop(AzLayoutPaddingTopValue::Auto),
            AzCssPropertyType::PaddingLeft => AzCssProperty::PaddingLeft(AzLayoutPaddingLeftValue::Auto),
            AzCssPropertyType::PaddingRight => AzCssProperty::PaddingRight(AzLayoutPaddingRightValue::Auto),
            AzCssPropertyType::PaddingBottom => AzCssProperty::PaddingBottom(AzLayoutPaddingBottomValue::Auto),
            AzCssPropertyType::MarginTop => AzCssProperty::MarginTop(AzLayoutMarginTopValue::Auto),
            AzCssPropertyType::MarginLeft => AzCssProperty::MarginLeft(AzLayoutMarginLeftValue::Auto),
            AzCssPropertyType::MarginRight => AzCssProperty::MarginRight(AzLayoutMarginRightValue::Auto),
            AzCssPropertyType::MarginBottom => AzCssProperty::MarginBottom(AzLayoutMarginBottomValue::Auto),
            AzCssPropertyType::BorderTopLeftRadius => AzCssProperty::BorderTopLeftRadius(AzStyleBorderTopLeftRadiusValue::Auto),
            AzCssPropertyType::BorderTopRightRadius => AzCssProperty::BorderTopRightRadius(AzStyleBorderTopRightRadiusValue::Auto),
            AzCssPropertyType::BorderBottomLeftRadius => AzCssProperty::BorderBottomLeftRadius(AzStyleBorderBottomLeftRadiusValue::Auto),
            AzCssPropertyType::BorderBottomRightRadius => AzCssProperty::BorderBottomRightRadius(AzStyleBorderBottomRightRadiusValue::Auto),
            AzCssPropertyType::BorderTopColor => AzCssProperty::BorderTopColor(AzStyleBorderTopColorValue::Auto),
            AzCssPropertyType::BorderRightColor => AzCssProperty::BorderRightColor(AzStyleBorderRightColorValue::Auto),
            AzCssPropertyType::BorderLeftColor => AzCssProperty::BorderLeftColor(AzStyleBorderLeftColorValue::Auto),
            AzCssPropertyType::BorderBottomColor => AzCssProperty::BorderBottomColor(AzStyleBorderBottomColorValue::Auto),
            AzCssPropertyType::BorderTopStyle => AzCssProperty::BorderTopStyle(AzStyleBorderTopStyleValue::Auto),
            AzCssPropertyType::BorderRightStyle => AzCssProperty::BorderRightStyle(AzStyleBorderRightStyleValue::Auto),
            AzCssPropertyType::BorderLeftStyle => AzCssProperty::BorderLeftStyle(AzStyleBorderLeftStyleValue::Auto),
            AzCssPropertyType::BorderBottomStyle => AzCssProperty::BorderBottomStyle(AzStyleBorderBottomStyleValue::Auto),
            AzCssPropertyType::BorderTopWidth => AzCssProperty::BorderTopWidth(AzLayoutBorderTopWidthValue::Auto),
            AzCssPropertyType::BorderRightWidth => AzCssProperty::BorderRightWidth(AzLayoutBorderRightWidthValue::Auto),
            AzCssPropertyType::BorderLeftWidth => AzCssProperty::BorderLeftWidth(AzLayoutBorderLeftWidthValue::Auto),
            AzCssPropertyType::BorderBottomWidth => AzCssProperty::BorderBottomWidth(AzLayoutBorderBottomWidthValue::Auto),
            AzCssPropertyType::BoxShadowLeft => AzCssProperty::BoxShadowLeft(AzStyleBoxShadowValue::Auto),
            AzCssPropertyType::BoxShadowRight => AzCssProperty::BoxShadowRight(AzStyleBoxShadowValue::Auto),
            AzCssPropertyType::BoxShadowTop => AzCssProperty::BoxShadowTop(AzStyleBoxShadowValue::Auto),
            AzCssPropertyType::BoxShadowBottom => AzCssProperty::BoxShadowBottom(AzStyleBoxShadowValue::Auto),
            AzCssPropertyType::ScrollbarStyle => AzCssProperty::ScrollbarStyle(AzScrollbarStyleValue::Auto),
            AzCssPropertyType::Opacity => AzCssProperty::Opacity(AzStyleOpacityValue::Auto),
            AzCssPropertyType::Transform => AzCssProperty::Transform(AzStyleTransformVecValue::Auto),
            AzCssPropertyType::PerspectiveOrigin => AzCssProperty::PerspectiveOrigin(AzStylePerspectiveOriginValue::Auto),
            AzCssPropertyType::TransformOrigin => AzCssProperty::TransformOrigin(AzStyleTransformOriginValue::Auto),
            AzCssPropertyType::BackfaceVisibility => AzCssProperty::BackfaceVisibility(AzStyleBackfaceVisibilityValue::Auto),
        }
    }

    /// The `initial` form of the property named by `prop_type`.
    pub fn initial(prop_type: AzCssPropertyType) -> (r: AzCssProperty)
        ensures
            r == spec_initial(prop_type),
    {
        match prop_type {
            AzCssPropertyType::TextColor => AzCssProperty::TextColor(AzStyleTextColorValue::Initial),
            AzCssPropertyType::FontSize => AzCssProperty::FontSize(AzStyleFontSizeValue::Initial),
            AzCssPropertyType::FontFamily => AzCssProperty::FontFamily(AzStyleFontFamilyValue::Initial),
            AzCssPropertyType::TextAlign => AzCssProperty::TextAlign(AzStyleTextAlignmentHorzValue::Initial),
            AzCssPropertyType::LetterSpacing => AzCssProperty::LetterSpacing(AzStyleLetterSpacingValue::Initial),
            AzCssPropertyType::LineHeight => AzCssProperty::LineHeight(AzStyleLineHeightValue::Initial),
            AzCssPropertyType::WordSpacing => AzCssProperty::WordSpacing(AzStyleWordSpacingValue::Initial),
            AzCssPropertyType::TabWidth => AzCssProperty::TabWidth(AzStyleTabWidthValue::Initial),
            AzCssPropertyType::Cursor => AzCssProperty::Cursor(AzStyleCursorValue::Initial),
            AzCssPropertyType::Display => AzCssProperty::Display(AzLayoutDisplayValue::Initial),
            AzCssPropertyType::Float => AzCssProperty::Float(AzLayoutFloatValue::Initial),
            AzCssPropertyType::BoxSizing => AzCssProperty::BoxSizing(AzLayoutBoxSizingValue::Initial),
            AzCssPropertyType::Width => AzCssProperty::Width(AzLayoutWidthValue::Initial),
            AzCssPropertyType::Height => AzCssProperty::Height(AzLayoutHeightValue::Initial),
            AzCssPropertyType::MinWidth => AzCssProperty::MinWidth(AzLayoutMinWidthValue::Initial),
            AzCssPropertyType::MinHeight => AzCssProperty::MinHeight(AzLayoutMinHeightValue::Initial),
            AzCssPropertyType::MaxWidth => AzCssProperty::MaxWidth(AzLayoutMaxWidthValue::Initial),
            AzCssPropertyType::MaxHeight => AzCssProperty::MaxHeight(AzLayoutMaxHeightValue::Initial),
            AzCssPropertyType::Position => AzCssProperty::Position(AzLayoutPositionValue::Initial),
            AzCssPropertyType::Top => AzCssProperty::Top(AzLayoutTopValue::Initial),
            AzCssPropertyType::Right => AzCssProperty::Right(AzLayoutRightValue::Initial),
            AzCssPropertyType::Left => AzCssProperty::Left(AzLayoutLeftValue::Initial),
            AzCssPropertyType::Bottom => AzCssProperty::Bottom(AzLayoutBottomValue::Initial),
            AzCssPropertyType::FlexWrap => AzCssProperty::FlexWrap(AzLayoutFlexWrapValue::Initial),
            AzCssPropertyType::FlexDirection => AzCssProperty::FlexDirection(AzLayoutFlexDirectionValue::Initial),
            AzCssPropertyType::FlexGrow => AzCssProperty::FlexGrow(AzLayoutFlexGrowValue::Initial),
            AzCssPropertyType::FlexShrink => AzCssProperty::FlexShrink(AzLayoutFlexShrinkValue::Initial),
            AzCssPropertyType::JustifyContent => AzCssProperty::JustifyContent(AzLayoutJustifyContentValue::Initial),
            AzCssPropertyType::AlignItems => AzCssProperty::AlignItems(AzLayoutAlignItemsValue::Initial),
            AzCssPropertyType::AlignContent => AzCssProperty::AlignContent(AzLayoutAlignContentValue::Initial),
            AzCssPropertyType::Background => AzCssProperty::BackgroundContent(AzStyleBackgroundContentVecValue::Initial),
            AzCssPropertyType::BackgroundImage => AzCssProperty::BackgroundContent(AzStyleBackgroundContentVecValue::Initial),
            AzCssPropertyType::BackgroundColor => AzCssProperty::BackgroundContent(AzStyleBackgroundContentVecValue::Initial),
            AzCssPropertyType::BackgroundPosition => AzCssProperty::BackgroundPosition(AzStyleBackgroundPositionVecValue::Initial),
            AzCssPropertyType::BackgroundSize => AzCssProperty::BackgroundSize(AzStyleBackgroundSizeVecValue::Initial),
            AzCssPropertyType::BackgroundRepeat => AzCssProperty::BackgroundRepeat(AzStyleBackgroundRepeatVecValue::Initial),
            AzCssPropertyType::OverflowX => AzCssProperty::OverflowX(AzLayoutOverflowValue::Initial),
            AzCssPropertyType::OverflowY => AzCssProperty::OverflowY(AzLayoutOverflowValue::Initial),
            AzCssPropertyType::PaddingTop => AzCssProperty::PaddingTop(AzLayoutPaddingTopValue::Initial),
            AzCssPropertyType::PaddingLeft => AzCssProperty::PaddingLeft(AzLayoutPaddingLeftValue::Initial),
            AzCssPropertyType::PaddingRight => AzCssProperty::PaddingRight(AzLayoutPaddingRightValue::Initial),
            AzCssPropertyType::PaddingBottom => AzCssProperty::PaddingBottom(AzLayoutPaddingBottomValue::Initial),
            AzCssPropertyType::MarginTop => AzCssProperty::MarginTop(AzLayoutMarginTopValue::Initial),
            AzCssPropertyType::MarginLeft => AzCssProperty::MarginLeft(AzLayoutMarginLeftValue::Initial),
            AzCssPropertyType::MarginRight => AzCssProperty::MarginRight(AzLayoutMarginRightValue::Initial),
            AzCssPropertyType::MarginBottom => AzCssProperty::MarginBottom(AzLayoutMarginBottomValue::Initial),
            AzCssPropertyType::BorderTopLeftRadius => AzCssProperty::BorderTopLeftRadius(AzStyleBorderTopLeftRadiusValue::Initial),
            AzCssPropertyType::BorderTopRightRadius => AzCssProperty::BorderTopRightRadius(AzStyleBorderTopRightRadiusValue::Initial),
            AzCssPropertyType::BorderBottomLeftRadius => AzCssProperty::BorderBottomLeftRadius(AzStyleBorderBottomLeftRadiusValue::Initial),
            AzCssPropertyType::BorderBottomRightRadius => AzCssProperty::BorderBottomRightRadius(AzStyleBorderBottomRightRadiusValue::Initial),
            AzCssPropertyType::BorderTopColor => AzCssProperty::BorderTopColor(AzStyleBorderTopColorValue::Initial),
            AzCssPropertyType::BorderRightColor => AzCssProperty::BorderRightColor(AzStyleBorderRightColorValue::Initial),
            AzCssPropertyType::BorderLeftColor => AzCssProperty::BorderLeftColor(AzStyleBorderLeftColorValue::Initial),
            AzCssPropertyType::BorderBottomColor => AzCssProperty::BorderBottomColor(AzStyleBorderBottomColorValue::Initial),
            AzCssPropertyType::BorderTopStyle => AzCssProperty::BorderTopStyle(AzStyleBorderTopStyleValue::Initial),
            AzCssPropertyType::BorderRightStyle => AzCssProperty::BorderRightStyle(AzStyleBorderRightStyleValue::Initial),
            AzCssPropertyType::BorderLeftStyle => AzCssProperty::BorderLeftStyle(AzStyleBorderLeftStyleValue::Initial),
            AzCssPropertyType::BorderBottomStyle => AzCssProperty::BorderBottomStyle(AzStyleBorderBottomStyleValue::Initial),
            AzCssPropertyType::BorderTopWidth => AzCssProperty::BorderTopWidth(AzLayoutBorderTopWidthValue::Initial),
            AzCssPropertyType::BorderRightWidth => AzCssProperty::BorderRightWidth(AzLayoutBorderRightWidthValue::Initial),
            AzCssPropertyType::BorderLeftWidth => AzCssProperty::BorderLeftWidth(AzLayoutBorderLeftWidthValue::Initial),
            AzCssPropertyType::BorderBottomWidth => AzCssProperty::BorderBottomWidth(AzLayoutBorderBottomWidthValue::Initial),
            AzCssPropertyType::BoxShadowLeft => AzCssProperty::BoxShadowLeft(AzStyleBoxShadowValue::Initial),
            AzCssPropertyType::BoxShadowRight => AzCssProperty::BoxShadowRight(AzStyleBoxShadowValue::Initial),
            AzCssPropertyType::BoxShadowTop => AzCssProperty::BoxShadowTop(AzStyleBoxShadowValue::Initial),
            AzCssPropertyType::BoxShadowBottom => AzCssProperty::BoxShadowBottom(AzStyleBoxShadowValue::Initial),
            AzCssPropertyType::ScrollbarStyle => AzCssProperty::ScrollbarStyle(AzScrollbarStyleValue::Initial),
            AzCssPropertyType::Opacity => AzCssProperty::Opacity(AzStyleOpacityValue::Initial),
            AzCssPropertyType::Transform => AzCssProperty::Transform(AzStyleTransformVecValue::Initial),
            AzCssPropertyType::PerspectiveOrigin => AzCssProperty::PerspectiveOrigin(AzStylePerspectiveOriginValue::Initial),
            AzCssPropertyType::TransformOrigin => AzCssProperty::TransformOrigin(AzStyleTransformOriginValue::Initial),
            AzCssPropertyType::BackfaceVisibility => AzCssProperty::BackfaceVisibility(AzStyleBackfaceVisibilityValue::Initial),
        }
    }

    /// The `inherit` form of the property named by `prop_type`.
    pub fn inherit(prop_type: AzCssPropertyType) -> (r: AzCssProperty)
        ensures
            r == spec_inherit(prop_type),
    {
        match prop_type {
            AzCssPropertyType::TextColor => AzCssProperty::TextColor(AzStyleTextColorValue::Inherit),
            AzCssPropertyType::FontSize => AzCssProperty::FontSize(AzStyleFontSizeValue::Inherit),
            AzCssPropertyType::FontFamily => AzCssProperty::FontFamily(AzStyleFontFamilyValue::Inherit),
            AzCssPropertyType::TextAlign => AzCssProperty::TextAlign(AzStyleTextAlignmentHorzValue::Inherit),
            AzCssPropertyType::LetterSpacing => AzCssProperty::LetterSpacing(AzStyleLetterSpacingValue::Inherit),
            AzCssPropertyType::LineHeight => AzCssProperty::LineHeight(AzStyleLineHeightValue::Inherit),
            AzCssPropertyType::WordSpacing => AzCssProperty::WordSpacing(AzStyleWordSpacingValue::Inherit),
            AzCssPropertyType::TabWidth => AzCssProperty::TabWidth(AzStyleTabWidthValue::Inherit),
            AzCssPropertyType::Cursor => AzCssProperty::Cursor(AzStyleCursorValue::Inherit),
            AzCssPropertyType::Display => AzCssProperty::Display(AzLayoutDisplayValue::Inherit),
            AzCssPropertyType::Float => AzCssProperty::Float(AzLayoutFloatValue::Inherit),
            AzCssPropertyType::BoxSizing => AzCssProperty::BoxSizing(AzLayoutBoxSizingValue::Inherit),
            AzCssPropertyType::Width => AzCssProperty::Width(AzLayoutWidthValue::Inherit),
            AzCssPropertyType::Height => AzCssProperty::Height(AzLayoutHeightValue::Inherit),
            AzCssPropertyType::MinWidth => AzCssProperty::MinWidth(AzLayoutMinWidthValue::Inherit),
            AzCssPropertyType::MinHeight => AzCssProperty::MinHeight(AzLayoutMinHeightValue::Inherit),
            AzCssPropertyType::MaxWidth => AzCssProperty::MaxWidth(AzLayoutMaxWidthValue::Inherit),
            AzCssPropertyType::MaxHeight => AzCssProperty::MaxHeight(AzLayoutMaxHeightValue::Inherit),
            AzCssPropertyType::Position => AzCssProperty::Position(AzLayoutPositionValue::Inherit),
            AzCssPropertyType::Top => AzCssProperty::Top(AzLayoutTopValue::Inherit),
            AzCssPropertyType::Right => AzCssProperty::Right(AzLayoutRightValue::Inherit),
            AzCssPropertyType::Left => AzCssProperty::Left(AzLayoutLeftValue::Inherit),
            AzCssPropertyType::Bottom => AzCssProperty::Bottom(AzLayoutBottomValue::Inherit),
            AzCssPropertyType::FlexWrap => AzCssProperty::FlexWrap(AzLayoutFlexWrapValue::Inherit),
            AzCssPropertyType::FlexDirection => AzCssProperty::FlexDirection(AzLayoutFlexDirectionValue::Inherit),
            AzCssPropertyType::FlexGrow => AzCssProperty::FlexGrow(AzLayoutFlexGrowValue::Inherit),
            AzCssPropertyType::FlexShrink => AzCssProperty::FlexShrink(AzLayoutFlexShrinkValue::Inherit),
            AzCssPropertyType::JustifyContent => AzCssProperty::JustifyContent(AzLayoutJustifyContentValue::Inherit),
            AzCssPropertyType::AlignItems => AzCssProperty::AlignItems(AzLayoutAlignItemsValue::Inherit),
            AzCssPropertyType::AlignContent => AzCssProperty::AlignContent(AzLayoutAlignContentValue::Inherit),
            AzCssPropertyType::Background => AzCssProperty::BackgroundContent(AzStyleBackgroundContentVecValue::Inherit),
            AzCssPropertyType::BackgroundImage => AzCssProperty::BackgroundContent(AzStyleBackgroundContentVecValue::Inherit),
            AzCssPropertyType::BackgroundColor => AzCssProperty::BackgroundContent(AzStyleBackgroundContentVecValue::Inherit),
            AzCssPropertyType::BackgroundPosition => AzCssProperty::BackgroundPosition(AzStyleBackgroundPositionVecValue::Inherit),
            AzCssPropertyType::BackgroundSize => AzCssProperty::BackgroundSize(AzStyleBackgroundSizeVecValue::Inherit),
            AzCssPropertyType::BackgroundRepeat => AzCssProperty::BackgroundRepeat(AzStyleBackgroundRepeatVecValue::Inherit),
            AzCssPropertyType::OverflowX => AzCssProperty::OverflowX(AzLayoutOverflowValue::Inherit),
            AzCssPropertyType::OverflowY => AzCssProperty::OverflowY(AzLayoutOverflowValue::Inherit),
            AzCssPropertyType::PaddingTop => AzCssProperty::PaddingTop(AzLayoutPaddingTopValue::Inherit),
            AzCssPropertyType::PaddingLeft => AzCssProperty::PaddingLeft(AzLayoutPaddingLeftValue::Inherit),
            AzCssPropertyType::PaddingRight => AzCssProperty::PaddingRight(AzLayoutPaddingRightValue::Inherit),
            AzCssPropertyType::PaddingBottom => AzCssProperty::PaddingBottom(AzLayoutPaddingBottomValue::Inherit),
            AzCssPropertyType::MarginTop => AzCssProperty::MarginTop(AzLayoutMarginTopValue::Inherit),
            AzCssPropertyType::MarginLeft => AzCssProperty::MarginLeft(AzLayoutMarginLeftValue::Inherit),
            AzCssPropertyType::MarginRight => AzCssProperty::MarginRight(AzLayoutMarginRightValue::Inherit),
            AzCssPropertyType::MarginBottom => AzCssProperty::MarginBottom(AzLayoutMarginBottomValue::Inherit),
            AzCssPropertyType::BorderTopLeftRadius => AzCssProperty::BorderTopLeftRadius(AzStyleBorderTopLeftRadiusValue::Inherit),
            AzCssPropertyType::BorderTopRightRadius => AzCssProperty::BorderTopRightRadius(AzStyleBorderTopRightRadiusValue::Inherit),
            AzCssPropertyType::BorderBottomLeftRadius => AzCssProperty::BorderBottomLeftRadius(AzStyleBorderBottomLeftRadiusValue::Inherit),
            AzCssPropertyType::BorderBottomRightRadius => AzCssProperty::BorderBottomRightRadius(AzStyleBorderBottomRightRadiusValue::Inherit),
            AzCssPropertyType::BorderTopColor => AzCssProperty::BorderTopColor(AzStyleBorderTopColorValue::Inherit),
            AzCssPropertyType::BorderRightColor => AzCssProperty::BorderRightColor(AzStyleBorderRightColorValue::Inherit),
            AzCssPropertyType::BorderLeftColor => AzCssProperty::BorderLeftColor(AzStyleBorderLeftColorValue::Inherit),
            AzCssPropertyType::BorderBottomColor => AzCssProperty::BorderBottomColor(AzStyleBorderBottomColorValue::Inherit),
            AzCssPropertyType::BorderTopStyle => AzCssProperty::BorderTopStyle(AzStyleBorderTopStyleValue::Inherit),
            AzCssPropertyType::BorderRightStyle => AzCssProperty::BorderRightStyle(AzStyleBorderRightStyleValue::Inherit),
            AzCssPropertyType::BorderLeftStyle => AzCssProperty::BorderLeftStyle(AzStyleBorderLeftStyleValue::Inherit),
            AzCssPropertyType::BorderBottomStyle => AzCssProperty::BorderBottomStyle(AzStyleBorderBottomStyleValue::Inherit),
            AzCssPropertyType::BorderTopWidth => AzCssProperty::BorderTopWidth(AzLayoutBorderTopWidthValue::Inherit),
            AzCssPropertyType::BorderRightWidth => AzCssProperty::BorderRightWidth(AzLayoutBorderRightWidthValue::Inherit),
            AzCssPropertyType::BorderLeftWidth => AzCssProperty::BorderLeftWidth(AzLayoutBorderLeftWidthValue::Inherit),
            AzCssPropertyType::BorderBottomWidth => AzCssProperty::BorderBottomWidth(AzLayoutBorderBottomWidthValue::Inherit),
            AzCssPropertyType::BoxShadowLeft => AzCssProperty::BoxShadowLeft(AzStyleBoxShadowValue::Inherit),
            AzCssPropertyType::BoxShadowRight => AzCssProperty::BoxShadowRight(AzStyleBoxShadowValue::Inherit),
            AzCssPropertyType::BoxShadowTop => AzCssProperty::BoxShadowTop(AzStyleBoxShadowValue::Inherit),
            AzCssPropertyType::BoxShadowBottom => AzCssProperty::BoxShadowBottom(AzStyleBoxShadowValue::Inherit),
            AzCssPropertyType::ScrollbarStyle => AzCssProperty::ScrollbarStyle(AzScrollbarStyleValue::Inherit),
            AzCssPropertyType::Opacity => AzCssProperty::Opacity(AzStyleOpacityValue::Inherit),
            AzCssPropertyType::Transform => AzCssProperty::Transform(AzStyleTransformVecValue::Inherit),
            AzCssPropertyType::PerspectiveOrigin => AzCssProperty::PerspectiveOrigin(AzStylePerspectiveOriginValue::Inherit),
            AzCssPropertyType::TransformOrigin => AzCssProperty::TransformOrigin(AzStyleTransformOriginValue::Inherit),
            AzCssPropertyType::BackfaceVisibility => AzCssProperty::BackfaceVisibility(AzStyleBackfaceVisibilityValue::Inherit),
        }
    }

    pub fn text_color(input: AzStyleTextColor) -> (r: AzCssProperty)
        ensures
            r == AzCssProperty::TextColor(AzStyleTextColorValue::Exact(input)),
    {
        AzCssProperty::TextColor(AzStyleTextColorValue::Exact(input))
    }

    pub fn font_size(input: AzStyleFontSize) -> (r: AzCssProperty)
        ensures
            r == AzCssProperty::FontSize(AzStyleFontSizeValue::Exact(input)),
    {
        AzCssProperty::FontSize(AzStyleFontSizeValue::Exact(input))
    }

    pub fn font_family(input: AzStyleFontFamily) -> (r: AzCssProperty)
        ensures
            r == AzCssProperty::FontFamily(AzStyleFontFamilyValue::Exact(input)),
    {
        AzCssProperty::FontFamily(AzStyleFontFamilyValue::Exact(input))
    }

    pub fn text_align(input: AzStyleTextAlignmentHorz) -> (r: AzCssProperty)
        ensures
            r == AzCssProperty::TextAlign(AzStyleTextAlignmentHorzValue::Exact(input)),
    {
        AzCssProperty::TextAlign(AzStyleTextAlignmentHorzValue::Exact(input))
    }

    pub fn letter_spacing(input: AzStyleLetterSpacing) -> (r: AzCssProperty)
        ensures
            r == AzCssProperty::LetterSpacing(AzStyleLetterSpacingValue::Exact(input)),
    {
        AzCssProperty::LetterSpacing(AzStyleLetterSpacingValue::Exact(input))
    }

    pub fn line_height(input: AzStyleLineHeight) -> (r: AzCssProperty)
        ensures
            r == AzCssProperty::LineHeight(AzStyleLineHeightValue::Exact(input)),
    {
        AzCssProperty::LineHeight(AzStyleLineHeightValue::Exact(input))
    }

    pub fn word_spacing(input: AzStyleWordSpacing) -> (r: AzCssProperty)
        ensures
            r == AzCssProperty::WordSpacing(AzStyleWordSpacingValue::Exact(input)),
    {
        AzCssProperty::WordSpacing(AzStyleWordSpacingValue::Exact(input))
    }

    pub fn tab_width(input: AzStyleTabWidth) -> (r: AzCssProperty)
        ensures
            r == AzCssProperty::TabWidth(AzStyleTabWidthValue::Exact(input)),
    {
        AzCssProperty::TabWidth(AzStyleTabWidthValue::Exact(input))
    }

    pub fn cursor(input: AzStyleCursor) -> (r: AzCssProperty)
        ensures
            r == AzCssProperty::Cursor(AzStyleCursorValue::Exact(input)),
    {
        AzCssProperty::Cursor(AzStyleCursorValue::Exact(input))
    }

    pub fn display(input: AzLayoutDisplay) -> (r: AzCssProperty)
        ensures
            r == AzCssProperty::Display(AzLayoutDisplayValue::Exact(input)),
    {
        AzCssProperty::Display(AzLayoutDisplayValue::Exact(input))
    }

    pub fn float(input: AzLayoutFloat) -> (r: AzCssProperty)
        ensures
            r == AzCssProperty::Float(AzLayoutFloatValue::Exact(input)),
    {
        AzCssProperty::Float(AzLayoutFloatValue::Exact(input))
    }

    pub fn box_sizing(input: AzLayoutBoxSizing) -> (r: AzCssProperty)
        ensures
            r == AzCssProperty::BoxSizing(AzLayoutBoxSizingValue::Exact(input)),
    {
        AzCssProperty::BoxSizing(AzLayoutBoxSizingValue::Exact(input))
    }

    pub fn width(input: AzLayoutWidth) -> (r: AzCssProperty)
        ensures
            r == AzCssProperty::Width(AzLayoutWidthValue::Exact(input)),
    {
        AzCssProperty::Width(AzLayoutWidthValue::Exact(input))
    }

    pub fn height(input: AzLayoutHeight) -> (r: AzCssProperty)
        ensures
            r == AzCssProperty::Height(AzLayoutHeightValue::Exact(input)),
    {
        AzCssProperty::Height(AzLayoutHeightValue::Exact(input))
    }

    pub fn min_width(input: AzLayoutMinWidth) -> (r: AzCssProperty)
        ensures
            r == AzCssProperty::MinWidth(AzLayoutMinWidthValue::Exact(input)),
    {
        AzCssProperty::MinWidth(AzLayoutMinWidthValue::Exact(input))
    }

    pub fn min_height(input: AzLayoutMinHeight) -> (r: AzCssProperty)
        ensures
            r == AzCssProperty::MinHeight(AzLayoutMinHeightValue::Exact(input)),
    {
        AzCssProperty::MinHeight(AzLayoutMinHeightValue::Exact(input))
    }

    pub fn max_width(input: AzLayoutMaxWidth) -> (r: AzCssProperty)
        ensures
            r == AzCssProperty::MaxWidth(AzLayoutMaxWidthValue::Exact(input)),
    {
        AzCssProperty::MaxWidth(AzLayoutMaxWidthValue::Exact(input))
    }

    pub fn max_height(input: AzLayoutMaxHeight) -> (r: AzCssProperty)
        ensures
            r == AzCssProperty::MaxHeight(AzLayoutMaxHeightValue::Exact(input)),
    {
        AzCssProperty::MaxHeight(AzLayoutMaxHeightValue::Exact(input))
    }

    pub fn position(input: AzLayoutPosition) -> (r: AzCssProperty)
        ensures
            r == AzCssProperty::Position(AzLayoutPositionValue::Exact(input)),
    {
        AzCssProperty::Position(AzLayoutPositionValue::Exact(input))
    }

    pub fn top(input: AzLayoutTop) -> (r: AzCssProperty)
        ensures
            r == AzCssProperty::Top(AzLayoutTopValue::Exact(input)),
    {
        AzCssProperty::Top(AzLayoutTopValue::Exact(input))
    }

    pub fn right(input: AzLayoutRight) -> (r: AzCssProperty)
        ensures
            r == AzCssProperty::Right(AzLayoutRightValue::Exact(input)),
    {
        AzCssProperty::Right(AzLayoutRightValue::Exact(input))
    }

    pub fn left(input: AzLayoutLeft) -> (r: AzCssProperty)
        ensures
            r == AzCssProperty::Left(AzLayoutLeftValue::Exact(input)),
    {
        AzCssProperty::Left(AzLayoutLeftValue::Exact(input))
    }

    pub fn bottom(input: AzLayoutBottom) -> (r: AzCssProperty)
        ensures
            r == AzCssProperty::Bottom(AzLayoutBottomValue::Exact(input)),
    {
        AzCssProperty::Bottom(AzLayoutBottomValue::Exact(input))
    }

    pub fn flex_wrap(input: AzLayoutFlexWrap) -> (r: AzCssProperty)
        ensures
            r == AzCssProperty::FlexWrap(AzLayoutFlexWrapValue::Exact(input)),
    {
        AzCssProperty::FlexWrap(AzLayoutFlexWrapValue::Exact(input))
    }

    pub fn flex_direction(input: AzLayoutFlexDirection) -> (r: AzCssProperty)
        ensures
            r == AzCssProperty::FlexDirection(AzLayoutFlexDirectionValue::Exact(input)),
    {
        AzCssProperty::FlexDirection(AzLayoutFlexDirectionValue::Exact(input))
    }

    pub fn flex_grow(input: AzLayoutFlexGrow) -> (r: AzCssProperty)
        ensures
            r == AzCssProperty::FlexGrow(AzLayoutFlexGrowValue::Exact(input)),
    {
        AzCssProperty::FlexGrow(AzLayoutFlexGrowValue::Exact(input))
    }

    pub fn flex_shrink(input: AzLayoutFlexShrink) -> (r: AzCssProperty)
        ensures
            r == AzCssProperty::FlexShrink(AzLayoutFlexShrinkValue::Exact(input)),
    {
        AzCssProperty::FlexShrink(AzLayoutFlexShrinkValue::Exact(input))
    }

    pub fn justify_content(input: AzLayoutJustifyContent) -> (r: AzCssProperty)
        ensures
            r == AzCssProperty::JustifyContent(AzLayoutJustifyContentValue::Exact(input)),
    {
        AzCssProperty::JustifyContent(AzLayoutJustifyContentValue::Exact(input))
    }

    pub fn align_items(input: AzLayoutAlignItems) -> (r: AzCssProperty)
        ensures
            r == AzCssProperty::AlignItems(AzLayoutAlignItemsValue::Exact(input)),
    {
        AzCssProperty::AlignItems(AzLayoutAlignItemsValue::Exact(input))
    }

    pub fn align_content(input: AzLayoutAlignContent) -> (r: AzCssProperty)
        ensures
            r == AzCssProperty::AlignContent(AzLayoutAlignContentValue::Exact(input)),
    {
        AzCssProperty::AlignContent(AzLayoutAlignContentValue::Exact(input))
    }

    pub fn background_content(input: AzStyleBackgroundContentVec) -> (r: AzCssProperty)
        ensures
            r == AzCssProperty::BackgroundContent(AzStyleBackgroundContentVecValue::Exact(input)),
    {
        AzCssProperty::BackgroundContent(AzStyleBackgroundContentVecValue::Exact(input))
    }

    pub fn background_position(input: AzStyleBackgroundPositionVec) -> (r: AzCssProperty)
        ensures
            r == AzCssProperty::BackgroundPosition(AzStyleBackgroundPositionVecValue::Exact(input)),
    {
        AzCssProperty::BackgroundPosition(AzStyleBackgroundPositionVecValue::Exact(input))
    }

    pub fn background_size(input: AzStyleBackgroundSizeVec) -> (r: AzCssProperty)
        ensures
            r == AzCssProperty::BackgroundSize(AzStyleBackgroundSizeVecValue::Exact(input)),
    {
        AzCssProperty::BackgroundSize(AzStyleBackgroundSizeVecValue::Exact(input))
    }

    pub fn background_repeat(input: AzStyleBackgroundRepeatVec) -> (r: AzCssProperty)
        ensures
            r == AzCssProperty::BackgroundRepeat(AzStyleBackgroundRepeatVecValue::Exact(input)),
    {
        AzCssProperty::BackgroundRepeat(AzStyleBackgroundRepeatVecValue::Exact(input))
    }

    pub fn overflow_x(input: AzLayoutOverflow) -> (r: AzCssProperty)
        ensures
            r == AzCssProperty::OverflowX(AzLayoutOverflowValue::Exact(input)),
    {
        AzCssProperty::OverflowX(AzLayoutOverflowValue::Exact(input))
    }

    pub fn overflow_y(input: AzLayoutOverflow) -> (r: AzCssProperty)
        ensures
            r == AzCssProperty::OverflowY(AzLayoutOverflowValue::Exact(input)),
    {
        AzCssProperty::OverflowY(AzLayoutOverflowValue::Exact(input))
    }

    pub fn padding_top(input: AzLayoutPaddingTop) -> (r: AzCssProperty)
        ensures
            r == AzCssProperty::PaddingTop(AzLayoutPaddingTopValue::Exact(input)),
    {
        AzCssProperty::PaddingTop(AzLayoutPaddingTopValue::Exact(input))
    }

    pub fn padding_left(input: AzLayoutPaddingLeft) -> (r: AzCssProperty)
        ensures
            r == AzCssProperty::PaddingLeft(AzLayoutPaddingLeftValue::Exact(input)),
    {
        AzCssProperty::PaddingLeft(AzLayoutPaddingLeftValue::Exact(input))
    }

    pub fn padding_right(input: AzLayoutPaddingRight) -> (r: AzCssProperty)
        ensures
            r == AzCssProperty::PaddingRight(AzLayoutPaddingRightValue::Exact(input)),
    {
        AzCssProperty::PaddingRight(AzLayoutPaddingRightValue::Exact(input))
    }

    pub fn padding_bottom(input: AzLayoutPaddingBottom) -> (r: AzCssProperty)
        ensures
            r == AzCssProperty::PaddingBottom(AzLayoutPaddingBottomValue::Exact(input)),
    {
        AzCssProperty::PaddingBottom(AzLayoutPaddingBottomValue::Exact(input))
    }

    pub fn margin_top(input: AzLayoutMarginTop) -> (r: AzCssProperty)
        ensures
            r == AzCssProperty::MarginTop(AzLayoutMarginTopValue::Exact(input)),
    {
        AzCssProperty::MarginTop(AzLayoutMarginTopValue::Exact(input))
    }

    pub fn margin_left(input: AzLayoutMarginLeft) -> (r: AzCssProperty)
        ensures
            r == AzCssProperty::MarginLeft(AzLayoutMarginLeftValue::Exact(input)),
    {
        AzCssProperty::MarginLeft(AzLayoutMarginLeftValue::Exact(input))
    }

    pub fn margin_right(input: AzLayoutMarginRight) -> (r: AzCssProperty)
        ensures
            r == AzCssProperty::MarginRight(AzLayoutMarginRightValue::Exact(input)),
    {
        AzCssProperty::MarginRight(AzLayoutMarginRightValue::Exact(input))
    }

    pub fn margin_bottom(input: AzLayoutMarginBottom) -> (r: AzCssProperty)
        ensures
            r == AzCssProperty::MarginBottom(AzLayoutMarginBottomValue::Exact(input)),
    {
        AzCssProperty::MarginBottom(AzLayoutMarginBottomValue::Exact(input))
    }

    pub fn border_top_left_radius(input: AzStyleBorderTopLeftRadius) -> (r: AzCssProperty)
        ensures
            r == AzCssProperty::BorderTopLeftRadius(AzStyleBorderTopLeftRadiusValue::Exact(input)),
    {
        AzCssProperty::BorderTopLeftRadius(AzStyleBorderTopLeftRadiusValue::Exact(input))
    }

    pub fn border_top_right_radius(input: AzStyleBorderTopRightRadius) -> (r: AzCssProperty)
        ensures
            r == AzCssProperty::BorderTopRightRadius(AzStyleBorderTopRightRadiusValue::Exact(input)),
    {
        AzCssProperty::BorderTopRightRadius(AzStyleBorderTopRightRadiusValue::Exact(input))
    }

    pub fn border_bottom_left_radius(input: AzStyleBorderBottomLeftRadius) -> (r: AzCssProperty)
        ensures
            r == AzCssProperty::BorderBottomLeftRadius(AzStyleBorderBottomLeftRadiusValue::Exact(input)),
    {
        AzCssProperty::BorderBottomLeftRadius(AzStyleBorderBottomLeftRadiusValue::Exact(input))
    }

    pub fn border_bottom_right_radius(input: AzStyleBorderBottomRightRadius) -> (r: AzCssProperty)
        ensures
            r == AzCssProperty::BorderBottomRightRadius(AzStyleBorderBottomRightRadiusValue::Exact(input)),
    {
        AzCssProperty::BorderBottomRightRadius(AzStyleBorderBottomRightRadiusValue::Exact(input))
    }

    pub fn border_top_color(input: AzStyleBorderTopColor) -> (r: AzCssProperty)
        ensures
            r == AzCssProperty::BorderTopColor(AzStyleBorderTopColorValue::Exact(input)),
    {
        AzCssProperty::BorderTopColor(AzStyleBorderTopColorValue::Exact(input))
    }

    pub fn border_right_color(input: AzStyleBorderRightColor) -> (r: AzCssProperty)
        ensures
            r == AzCssProperty::BorderRightColor(AzStyleBorderRightColorValue::Exact(input)),
    {
        AzCssProperty::BorderRightColor(AzStyleBorderRightColorValue::Exact(input))
    }

    pub fn border_left_color(input: AzStyleBorderLeftColor) -> (r: AzCssProperty)
        ensures
            r == AzCssProperty::BorderLeftColor(AzStyleBorderLeftColorValue::Exact(input)),
    {
        AzCssProperty::BorderLeftColor(AzStyleBorderLeftColorValue::Exact(input))
    }

    pub fn border_bottom_color(input: AzStyleBorderBottomColor) -> (r: AzCssProperty)
        ensures
            r == AzCssProperty::BorderBottomColor(AzStyleBorderBottomColorValue::Exact(input)),
    {
        AzCssProperty::BorderBottomColor(AzStyleBorderBottomColorValue::Exact(input))
    }

    pub fn border_top_style(input: AzStyleBorderTopStyle) -> (r: AzCssProperty)
        ensures
            r == AzCssProperty::BorderTopStyle(AzStyleBorderTopStyleValue::Exact(input)),
    {
        AzCssProperty::BorderTopStyle(AzStyleBorderTopStyleValue::Exact(input))
    }

    pub fn border_right_style(input: AzStyleBorderRightStyle) -> (r: AzCssProperty)
        ensures
            r == AzCssProperty::BorderRightStyle(AzStyleBorderRightStyleValue::Exact(input)),
    {
        AzCssProperty::BorderRightStyle(AzStyleBorderRightStyleValue::Exact(input))
    }

    pub fn border_left_style(input: AzStyleBorderLeftStyle) -> (r: AzCssProperty)
        ensures
            r == AzCssProperty::BorderLeftStyle(AzStyleBorderLeftStyleValue::Exact(input)),
    {
        AzCssProperty::BorderLeftStyle(AzStyleBorderLeftStyleValue::Exact(input))
    }

    pub fn border_bottom_style(input: AzStyleBorderBottomStyle) -> (r: AzCssProperty)
        ensures
            r == AzCssProperty::BorderBottomStyle(AzStyleBorderBottomStyleValue::Exact(input)),
    {
        AzCssProperty::BorderBottomStyle(AzStyleBorderBottomStyleValue::Exact(input))
    }

    pub fn border_top_width(input: AzLayoutBorderTopWidth) -> (r: AzCssProperty)
        ensures
            r == AzCssProperty::BorderTopWidth(AzLayoutBorderTopWidthValue::Exact(input)),
    {
        AzCssProperty::BorderTopWidth(AzLayoutBorderTopWidthValue::Exact(input))
    }

    pub fn border_right_width(input: AzLayoutBorderRightWidth) -> (r: AzCssProperty)
        ensures
            r == AzCssProperty::BorderRightWidth(AzLayoutBorderRightWidthValue::Exact(input)),
    {
        AzCssProperty::BorderRightWidth(AzLayoutBorderRightWidthValue::Exact(input))
    }

    pub fn border_left_width(input: AzLayoutBorderLeftWidth) -> (r: AzCssProperty)
        ensures
            r == AzCssProperty::BorderLeftWidth(AzLayoutBorderLeftWidthValue::Exact(input)),
    {
        AzCssProperty::BorderLeftWidth(AzLayoutBorderLeftWidthValue::Exact(input))
    }

    pub fn border_bottom_width(input: AzLayoutBorderBottomWidth) -> (r: AzCssProperty)
        ensures
            r == AzCssProperty::BorderBottomWidth(AzLayoutBorderBottomWidthValue::Exact(input)),
    {
        AzCssProperty::BorderBottomWidth(AzLayoutBorderBottomWidthValue::Exact(input))
    }

    pub fn box_shadow_left(input: AzStyleBoxShadow) -> (r: AzCssProperty)
        ensures
            r == AzCssProperty::BoxShadowLeft(AzStyleBoxShadowValue::Exact(input)),
    {
        AzCssProperty::BoxShadowLeft(AzStyleBoxShadowValue::Exact(input))
    }

    pub fn box_shadow_right(input: AzStyleBoxShadow) -> (r: AzCssProperty)
        ensures
            r == AzCssProperty::BoxShadowRight(AzStyleBoxShadowValue::Exact(input)),
    {
        AzCssProperty::BoxShadowRight(AzStyleBoxShadowValue::Exact(input))
    }

    pub fn box_shadow_top(input: AzStyleBoxShadow) -> (r: AzCssProperty)
        ensures
            r == AzCssProperty::BoxShadowTop(AzStyleBoxShadowValue::Exact(input)),
    {
        AzCssProperty::BoxShadowTop(AzStyleBoxShadowValue::Exact(input))
    }

    pub fn box_shadow_bottom(input: AzStyleBoxShadow) -> (r: AzCssProperty)
        ensures
            r == AzCssProperty::BoxShadowBottom(AzStyleBoxShadowValue::Exact(input)),
    {
        AzCssProperty::BoxShadowBottom(AzStyleBoxShadowValue::Exact(input))
    }

    pub fn opacity(input: AzStyleOpacity) -> (r: AzCssProperty)
        ensures
            r == AzCssProperty::Opacity(AzStyleOpacityValue::Exact(input)),
    {
        AzCssProperty::Opacity(AzStyleOpacityValue::Exact(input))
    }

    pub fn transform(input: AzStyleTransformVec) -> (r: AzCssProperty)
        ensures
            r == AzCssProperty::Transform(AzStyleTransformVecValue::Exact(input)),
    {
        AzCssProperty::Transform(AzStyleTransformVecValue::Exact(input))
    }

    pub fn transform_origin(input: AzStyleTransformOrigin) -> (r: AzCssProperty)
        ensures
            r == AzCssProperty::TransformOrigin(AzStyleTransformOriginValue::Exact(input)),
    {
        AzCssProperty::TransformOrigin(AzStyleTransformOriginValue::Exact(input))
    }

    pub fn perspective_origin(input: AzStylePerspectiveOrigin) -> (r: AzCssProperty)
        ensures
            r == AzCssProperty::PerspectiveOrigin(AzStylePerspectiveOriginValue::Exact(input)),
    {
        AzCssProperty::PerspectiveOrigin(AzStylePerspectiveOriginValue::Exact(input))
    }

    pub fn backface_visiblity(input: AzStyleBackfaceVisibility) -> (r: AzCssProperty)
        ensures
            r == AzCssProperty::BackfaceVisibility(AzStyleBackfaceVisibilityValue::Exact(input)),
    {
        AzCssProperty::BackfaceVisibility(AzStyleBackfaceVisibilityValue::Exact(input))
    }

    pub fn as_background(&self) -> (r: Option<&AzStyleBackgroundContentVecValue>)
        ensures
            (match self {
                AzCssProperty::BackgroundContent(f) => r == Option::Some(f),
                _ => r is None,
            }),
    {
        match self {
            AzCssProperty::BackgroundContent(f) => Option::Some(f),
            _ => Option::None,
        }
    }

    pub fn as_background_position(&self) -> (r: Option<&AzStyleBackgroundPositionVecValue>)
        ensures
            (match self {
                AzCssProperty::BackgroundPosition(f) => r == Option::Some(f),
                _ => r is None,
            }),
    {
        match self {
            AzCssProperty::BackgroundPosition(f) => Option::Some(f),
            _ => Option::None,
        }
    }

    pub fn as_background_size(&self) -> (r: Option<&AzStyleBackgroundSizeVecValue>)
        ensures
            (match self {
                AzCssProperty::BackgroundSize(f) => r == Option::Some(f),
                _ => r is None,
            }),
    {
        match self {
            AzCssProperty::BackgroundSize(f) => Option::Some(f),
            _ => Option::None,
        }
    }

    pub fn as_background_repeat(&self) -> (r: Option<&AzStyleBackgroundRepeatVecValue>)
        ensures
            (match self {
                AzCssProperty::BackgroundRepeat(f) => r == Option::Some(f),
                _ => r is None,
            }),
    {
        match self {
            AzCssProperty::BackgroundRepeat(f) => Option::Some(f),
            _ => Option::None,
        }
    }

    pub fn as_font_size(&self) -> (r: Option<&AzStyleFontSizeValue>)
        ensures
            (match self {
                AzCssProperty::FontSize(f) => r == Option::Some(f),
                _ => r is None,
            }),
    {
        match self {
            AzCssProperty::FontSize(f) => Option::Some(f),
            _ => Option::None,
        }
    }

    pub fn as_font_family(&self) -> (r: Option<&AzStyleFontFamilyValue>)
        ensures
            (match self {
                AzCssProperty::FontFamily(f) => r == Option::Some(f),
                _ => r is None,
            }),
    {
        match self {
            AzCssProperty::FontFamily(f) => Option::Some(f),
            _ => Option::None,
        }
    }

    pub fn as_text_color(&self) -> (r: Option<&AzStyleTextColorValue>)
        ensures
            (match self {
                AzCssProperty::TextColor(f) => r == Option::Some(f),
                _ => r is None,
            }),
    {
        match self {
            AzCssProperty::TextColor(f) => Option::Some(f),
            _ => Option::None,
        }
    }

    pub fn as_text_align(&self) -> (r: Option<&AzStyleTextAlignmentHorzValue>)
        ensures
            (match self {
                AzCssProperty::TextAlign(f) => r == Option::Some(f),
                _ => r is None,
            }),
    {
        match self {
            AzCssProperty::TextAlign(f) => Option::Some(f),
            _ => Option::None,
        }
    }

    pub fn as_line_height(&self) -> (r: Option<&AzStyleLineHeightValue>)
        ensures
            (match self {
                AzCssProperty::LineHeight(f) => r == Option::Some(f),
                _ => r is None,
            }),
    {
        match self {
            AzCssProperty::LineHeight(f) => Option::Some(f),
            _ => Option::None,
        }
    }

    pub fn as_letter_spacing(&self) -> (r: Option<&AzStyleLetterSpacingValue>)
        ensures
            (match self {
                AzCssProperty::LetterSpacing(f) => r == Option::Some(f),
                _ => r is None,
            }),
    {
        match self {
            AzCssProperty::LetterSpacing(f) => Option::Some(f),
            _ => Option::None,
        }
    }

    pub fn as_word_spacing(&self) -> (r: Option<&AzStyleWordSpacingValue>)
        ensures
            (match self {
                AzCssProperty::WordSpacing(f) => r == Option::Some(f),
                _ => r is None,
            }),
    {
        match self {
            AzCssProperty::WordSpacing(f) => Option::Some(f),
            _ => Option::None,
        }
    }

    pub fn as_tab_width(&self) -> (r: Option<&AzStyleTabWidthValue>)
        ensures
            (match self {
                AzCssProperty::TabWidth(f) => r == Option::Some(f),
                _ => r is None,
            }),
    {
        match self {
            AzCssProperty::TabWidth(f) => Option::Some(f),
            _ => Option::None,
        }
    }

    pub fn as_cursor(&self) -> (r: Option<&AzStyleCursorValue>)
        ensures
            (match self {
                AzCssProperty::Cursor(f) => r == Option::Some(f),
                _ => r is None,
            }),
    {
        match self {
            AzCssProperty::Cursor(f) => Option::Some(f),
            _ => Option::None,
        }
    }

    pub fn as_box_shadow_left(&self) -> (r: Option<&AzStyleBoxShadowValue>)
        ensures
            (match self {
                AzCssProperty::BoxShadowLeft(f) => r == Option::Some(f),
                _ => r is None,
            }),
    {
        match self {
            AzCssProperty::BoxShadowLeft(f) => Option::Some(f),
            _ => Option::None,
        }
    }

    pub fn as_box_shadow_right(&self) -> (r: Option<&AzStyleBoxShadowValue>)
        ensures
            (match self {
                AzCssProperty::BoxShadowRight(f) => r == Option::Some(f),
                _ => r is None,
            }),
    {
        match self {
            AzCssProperty::BoxShadowRight(f) => Option::Some(f),
            _ => Option::None,
        }
    }

    pub fn as_box_shadow_top(&self) -> (r: Option<&AzStyleBoxShadowValue>)
        ensures
            (match self {
                AzCssProperty::BoxShadowTop(f) => r == Option::Some(f),
                _ => r is None,
            }),
    {
        match self {
            AzCssProperty::BoxShadowTop(f) => Option::Some(f),
            _ => Option::None,
        }
    }

    pub fn as_box_shadow_bottom(&self) -> (r: Option<&AzStyleBoxShadowValue>)
        ensures
            (match self {
                AzCssProperty::BoxShadowBottom(f) => r == Option::Some(f),
                _ => r is None,
            }),
    {
        match self {
            AzCssProperty::BoxShadowBottom(f) => Option::Some(f),
            _ => Option::None,
        }
    }

    pub fn as_border_top_color(&self) -> (r: Option<&AzStyleBorderTopColorValue>)
        ensures
            (match self {
                AzCssProperty::BorderTopColor(f) => r == Option::Some(f),
                _ => r is None,
            }),
    {
        match self {
            AzCssProperty::BorderTopColor(f) => Option::Some(f),
            _ => Option::None,
        }
    }

    pub fn as_border_left_color(&self) -> (r: Option<&AzStyleBorderLeftColorValue>)
        ensures
            (match self {
                AzCssProperty::BorderLeftColor(f) => r == Option::Some(f),
                _ => r is None,
            }),
    {
        match self {
            AzCssProperty::BorderLeftColor(f) => Option::Some(f),
            _ => Option::None,
        }
    }

    pub fn as_border_right_color(&self) -> (r: Option<&AzStyleBorderRightColorValue>)
        ensures
            (match self {
                AzCssProperty::BorderRightColor(f) => r == Option::Some(f),
                _ => r is None,
            }),
    {
        match self {
            AzCssProperty::BorderRightColor(f) => Option::Some(f),
            _ => Option::None,
        }
    }

    pub fn as_border_bottom_color(&self) -> (r: Option<&AzStyleBorderBottomColorValue>)
        ensures
            (match self {
                AzCssProperty::BorderBottomColor(f) => r == Option::Some(f),
                _ => r is None,
            }),
    {
        match self {
            AzCssProperty::BorderBottomColor(f) => Option::Some(f),
            _ => Option::None,
        }
    }

    pub fn as_border_top_style(&self) -> (r: Option<&AzStyleBorderTopStyleValue>)
        ensures
            (match self {
                AzCssProperty::BorderTopStyle(f) => r == Option::Some(f),
                _ => r is None,
            }),
    {
        match self {
            AzCssProperty::BorderTopStyle(f) => Option::Some(f),
            _ => Option::None,
        }
    }

    pub fn as_border_left_style(&self) -> (r: Option<&AzStyleBorderLeftStyleValue>)
        ensures
            (match self {
                AzCssProperty::BorderLeftStyle(f) => r == Option::Some(f),
                _ => r is None,
            }),
    {
        match self {
            AzCssProperty::BorderLeftStyle(f) => Option::Some(f),
            _ => Option::None,
        }
    }

    pub fn as_border_right_style(&self) -> (r: Option<&AzStyleBorderRightStyleValue>)
        ensures
            (match self {
                AzCssProperty::BorderRightStyle(f) => r == Option::Some(f),
                _ => r is None,
            }),
    {
        match self {
            AzCssProperty::BorderRightStyle(f) => Option::Some(f),
            _ => Option::None,
        }
    }

    pub fn as_border_bottom_style(&self) -> (r: Option<&AzStyleBorderBottomStyleValue>)
        ensures
            (match self {
                AzCssProperty::BorderBottomStyle(f) => r == Option::Some(f),
                _ => r is None,
            }),
    {
        match self {
            AzCssProperty::BorderBottomStyle(f) => Option::Some(f),
            _ => Option::None,
        }
    }

    pub fn as_border_top_left_radius(&self) -> (r: Option<&AzStyleBorderTopLeftRadiusValue>)
        ensures
            (match self {
                AzCssProperty::BorderTopLeftRadius(f) => r == Option::Some(f),
                _ => r is None,
            }),
    {
        match self {
            AzCssProperty::BorderTopLeftRadius(f) => Option::Some(f),
            _ => Option::None,
        }
    }

    pub fn as_border_top_right_radius(&self) -> (r: Option<&AzStyleBorderTopRightRadiusValue>)
        ensures
            (match self {
                AzCssProperty::BorderTopRightRadius(f) => r == Option::Some(f),
                _ => r is None,
            }),
    {
        match self {
            AzCssProperty::BorderTopRightRadius(f) => Option::Some(f),
            _ => Option::None,
        }
    }

    pub fn as_border_bottom_left_radius(&self) -> (r: Option<&AzStyleBorderBottomLeftRadiusValue>)
        ensures
            (match self {
                AzCssProperty::BorderBottomLeftRadius(f) => r == Option::Some(f),
                _ => r is None,
            }),
    {
        match self {
            AzCssProperty::BorderBottomLeftRadius(f) => Option::Some(f),
            _ => Option::None,
        }
    }

    pub fn as_border_bottom_right_radius(&self) -> (r: Option<&AzStyleBorderBottomRightRadiusValue>)
        ensures
            (match self {
                AzCssProperty::BorderBottomRightRadius(f) => r == Option::Some(f),
                _ => r is None,
            }),
    {
        match self {
            AzCssProperty::BorderBottomRightRadius(f) => Option::Some(f),
            _ => Option::None,
        }
    }

    pub fn as_opacity(&self) -> (r: Option<&AzStyleOpacityValue>)
        ensures
            (match self {
                AzCssProperty::Opacity(f) => r == Option::Some(f),
                _ => r is None,
            }),
    {
        match self {
            AzCssProperty::Opacity(f) => Option::Some(f),
            _ => Option::None,
        }
    }

    pub fn as_transform(&self) -> (r: Option<&AzStyleTransformVecValue>)
        ensures
            (match self {
                AzCssProperty::Transform(f) => r == Option::Some(f),
                _ => r is None,
            }),
    {
        match self {
            AzCssProperty::Transform(f) => Option::Some(f),
            _ => Option::None,
        }
    }

    pub fn as_transform_origin(&self) -> (r: Option<&AzStyleTransformOriginValue>)
        ensures
            (match self {
                AzCssProperty::TransformOrigin(f) => r == Option::Some(f),
                _ => r is None,
            }),
    {
        match self {
            AzCssProperty::TransformOrigin(f) => Option::Some(f),
            _ => Option::None,
        }
    }

    pub fn as_perspective_origin(&self) -> (r: Option<&AzStylePerspectiveOriginValue>)
        ensures
            (match self {
                AzCssProperty::PerspectiveOrigin(f) => r == Option::Some(f),
                _ => r is None,
            }),
    {
        match self {
            AzCssProperty::PerspectiveOrigin(f) => Option::Some(f),
            _ => Option::None,
        }
    }

    pub fn as_backface_visibility(&self) -> (r: Option<&AzStyleBackfaceVisibilityValue>)
        ensures
            (match self {
                AzCssProperty::BackfaceVisibility(f) => r == Option::Some(f),
                _ => r is None,
            }),
    {
        match self {
            AzCssProperty::BackfaceVisibility(f) => Option::Some(f),
            _ => Option::None,
        }
    }

    pub fn as_display(&self) -> (r: Option<&AzLayoutDisplayValue>)
        ensures
            (match self {
                AzCssProperty::Display(f) => r == Option::Some(f),
                _ => r is None,
            }),
    {
        match self {
            AzCssProperty::Display(f) => Option::Some(f),
            _ => Option::None,
        }
    }

    pub fn as_float(&self) -> (r: Option<&AzLayoutFloatValue>)
        ensures
            (match self {
                AzCssProperty::Float(f) => r == Option::Some(f),
                _ => r is None,
            }),
    {
        match self {
            AzCssProperty::Float(f) => Option::Some(f),
            _ => Option::None,
        }
    }

    pub fn as_box_sizing(&self) -> (r: Option<&AzLayoutBoxSizingValue>)
        ensures
            (match self {
                AzCssProperty::BoxSizing(f) => r == Option::Some(f),
                _ => r is None,
            }),
    {
        match self {
            AzCssProperty::BoxSizing(f) => Option::Some(f),
            _ => Option::None,
        }
    }

    pub fn as_width(&self) -> (r: Option<&AzLayoutWidthValue>)
        ensures
            (match self {
                AzCssProperty::Width(f) => r == Option::Some(f),
                _ => r is None,
            }),
    {
        match self {
            AzCssProperty::Width(f) => Option::Some(f),
            _ => Option::None,
        }
    }

    pub fn as_height(&self) -> (r: Option<&AzLayoutHeightValue>)
        ensures
            (match self {
                AzCssProperty::Height(f) => r == Option::Some(f),
                _ => r is None,
            }),
    {
        match self {
            AzCssProperty::Height(f) => Option::Some(f),
            _ => Option::None,
        }
    }

    pub fn as_min_width(&self) -> (r: Option<&AzLayoutMinWidthValue>)
        ensures
            (match self {
                AzCssProperty::MinWidth(f) => r == Option::Some(f),
                _ => r is None,
            }),
    {
        match self {
            AzCssProperty::MinWidth(f) => Option::Some(f),
            _ => Option::None,
        }
    }

    pub fn as_min_height(&self) -> (r: Option<&AzLayoutMinHeightValue>)
        ensures
            (match self {
                AzCssProperty::MinHeight(f) => r == Option::Some(f),
                _ => r is None,
            }),
    {
        match self {
            AzCssProperty::MinHeight(f) => Option::Some(f),
            _ => Option::None,
        }
    }

    pub fn as_max_width(&self) -> (r: Option<&AzLayoutMaxWidthValue>)
        ensures
            (match self {
                AzCssProperty::MaxWidth(f) => r == Option::Some(f),
                _ => r is None,
            }),
    {
        match self {
            AzCssProperty::MaxWidth(f) => Option::Some(f),
            _ => Option::None,
        }
    }

    pub fn as_max_height(&self) -> (r: Option<&AzLayoutMaxHeightValue>)
        ensures
            (match self {
                AzCssProperty::MaxHeight(f) => r == Option::Some(f),
                _ => r is None,
            }),
    {
        match self {
            AzCssProperty::MaxHeight(f) => Option::Some(f),
            _ => Option::None,
        }
    }

    pub fn as_position(&self) -> (r: Option<&AzLayoutPositionValue>)
        ensures
            (match self {
                AzCssProperty::Position(f) => r == Option::Some(f),
                _ => r is None,
            }),
    {
        match self {
            AzCssProperty::Position(f) => Option::Some(f),
            _ => Option::None,
        }
    }

    pub fn as_top(&self) -> (r: Option<&AzLayoutTopValue>)
        ensures
            (match self {
                AzCssProperty::Top(f) => r == Option::Some(f),
                _ => r is None,
            }),
    {
        match self {
            AzCssProperty::Top(f) => Option::Some(f),
            _ => Option::None,
        }
    }

    pub fn as_bottom(&self) -> (r: Option<&AzLayoutBottomValue>)
        ensures
            (match self {
                AzCssProperty::Bottom(f) => r == Option::Some(f),
                _ => r is None,
            }),
    {
        match self {
            AzCssProperty::Bottom(f) => Option::Some(f),
            _ => Option::None,
        }
    }

    pub fn as_right(&self) -> (r: Option<&AzLayoutRightValue>)
        ensures
            (match self {
                AzCssProperty::Right(f) => r == Option::Some(f),
                _ => r is None,
            }),
    {
        match self {
            AzCssProperty::Right(f) => Option::Some(f),
            _ => Option::None,
        }
    }

    pub fn as_left(&self) -> (r: Option<&AzLayoutLeftValue>)
        ensures
            (match self {
                AzCssProperty::Left(f) => r == Option::Some(f),
                _ => r is None,
            }),
    {
        match self {
            AzCssProperty::Left(f) => Option::Some(f),
            _ => Option::None,
        }
    }

    pub fn as_padding_top(&self) -> (r: Option<&AzLayoutPaddingTopValue>)
        ensures
            (match self {
                AzCssProperty::PaddingTop(f) => r == Option::Some(f),
                _ => r is None,
            }),
    {
        match self {
            AzCssProperty::PaddingTop(f) => Option::Some(f),
            _ => Option::None,
        }
    }

    pub fn as_padding_bottom(&self) -> (r: Option<&AzLayoutPaddingBottomValue>)
        ensures
            (match self {
                AzCssProperty::PaddingBottom(f) => r == Option::Some(f),
                _ => r is None,
            }),
    {
        match self {
            AzCssProperty::PaddingBottom(f) => Option::Some(f),
            _ => Option::None,
        }
    }

    pub fn as_padding_left(&self) -> (r: Option<&AzLayoutPaddingLeftValue>)
        ensures
            (match self {
                AzCssProperty::PaddingLeft(f) => r == Option::Some(f),
                _ => r is None,
            }),
    {
        match self {
            AzCssProperty::PaddingLeft(f) => Option::Some(f),
            _ => Option::None,
        }
    }

    pub fn as_padding_right(&self) -> (r: Option<&AzLayoutPaddingRightValue>)
        ensures
            (match self {
                AzCssProperty::PaddingRight(f) => r == Option::Some(f),
                _ => r is None,
            }),
    {
        match self {
            AzCssProperty::PaddingRight(f) => Option::Some(f),
            _ => Option::None,
        }
    }

    pub fn as_margin_top(&self) -> (r: Option<&AzLayoutMarginTopValue>)
        ensures
            (match self {
                AzCssProperty::MarginTop(f) => r == Option::Some(f),
                _ => r is None,
            }),
    {
        match self {
            AzCssProperty::MarginTop(f) => Option::Some(f),
            _ => Option::None,
        }
    }

    pub fn as_margin_bottom(&self) -> (r: Option<&AzLayoutMarginBottomValue>)
        ensures
            (match self {
                AzCssProperty::MarginBottom(f) => r == Option::Some(f),
                _ => r is None,
            }),
    {
        match self {
            AzCssProperty::MarginBottom(f) => Option::Some(f),
            _ => Option::None,
        }
    }

    pub fn as_margin_left(&self) -> (r: Option<&AzLayoutMarginLeftValue>)
        ensures
            (match self {
                AzCssProperty::MarginLeft(f) => r == Option::Some(f),
                _ => r is None,
            }),
    {
        match self {
            AzCssProperty::MarginLeft(f) => Option::Some(f),
            _ => Option::None,
        }
    }

    pub fn as_margin_right(&self) -> (r: Option<&AzLayoutMarginRightValue>)
        ensures
            (match self {
                AzCssProperty::MarginRight(f) => r == Option::Some(f),
                _ => r is None,
            }),
    {
        match self {
            AzCssProperty::MarginRight(f) => Option::Some(f),
            _ => Option::None,
        }
    }

    pub fn as_border_top_width(&self) -> (r: Option<&AzLayoutBorderTopWidthValue>)
        ensures
            (match self {
                AzCssProperty::BorderTopWidth(f) => r == Option::Some(f),
                _ => r is None,
            }),
    {
        match self {
            AzCssProperty::BorderTopWidth(f) => Option::Some(f),
            _ => Option::None,
        }
    }

    pub fn as_border_left_width(&self) -> (r: Option<&AzLayoutBorderLeftWidthValue>)
        ensures
            (match self {
                AzCssProperty::BorderLeftWidth(f) => r == Option::Some(f),
                _ => r is None,
            }),
    {
        match self {
            AzCssProperty::BorderLeftWidth(f) => Option::Some(f),
            _ => Option::None,
        }
    }

    pub fn as_border_right_width(&self) -> (r: Option<&AzLayoutBorderRightWidthValue>)
        ensures
            (match self {
                AzCssProperty::BorderRightWidth(f) => r == Option::Some(f),
                _ => r is None,
            }),
    {
        match self {
            AzCssProperty::BorderRightWidth(f) => Option::Some(f),
            _ => Option::None,
        }
    }

    pub fn as_border_bottom_width(&self) -> (r: Option<&AzLayoutBorderBottomWidthValue>)
        ensures
            (match self {
                AzCssProperty::BorderBottomWidth(f) => r == Option::Some(f),
                _ => r is None,
            }),
    {
        match self {
            AzCssProperty::BorderBottomWidth(f) => Option::Some(f),
            _ => Option::None,
        }
    }

    pub fn as_overflow_x(&self) -> (r: Option<&AzLayoutOverflowValue>)
        ensures
            (match self {
                AzCssProperty::OverflowX(f) => r == Option::Some(f),
                _ => r is None,
            }),
    {
        match self {
            AzCssProperty::OverflowX(f) => Option::Some(f),
            _ => Option::None,
        }
    }

    pub fn as_overflow_y(&self) -> (r: Option<&AzLayoutOverflowValue>)
        ensures
            (match self {
                AzCssProperty::OverflowY(f) => r == Option::Some(f),
                _ => r is None,
            }),
    {
        match self {
            AzCssProperty::OverflowY(f) => Option::Some(f),
            _ => Option::None,
        }
    }

    pub fn as_direction(&self) -> (r: Option<&AzLayoutFlexDirectionValue>)
        ensures
            (match self {
                AzCssProperty::FlexDirection(f) => r == Option::Some(f),
                _ => r is None,
            }),
    {
        match self {
            AzCssProperty::FlexDirection(f) => Option::Some(f),
            _ => Option::None,
        }
    }

    pub fn as_flex_wrap(&self) -> (r: Option<&AzLayoutFlexWrapValue>)
        ensures
            (match self {
                AzCssProperty::FlexWrap(f) => r == Option::Some(f),
                _ => r is None,
            }),
    {
        match self {
            AzCssProperty::FlexWrap(f) => Option::Some(f),
            _ => Option::None,
        }
    }

    pub fn as_flex_grow(&self) -> (r: Option<&AzLayoutFlexGrowValue>)
        ensures
            (match self {
                AzCssProperty::FlexGrow(f) => r == Option::Some(f),
                _ => r is None,
            }),
    {
        match self {
            AzCssProperty::FlexGrow(f) => Option::Some(f),
            _ => Option::None,
        }
    }

    pub fn as_flex_shrink(&self) -> (r: Option<&AzLayoutFlexShrinkValue>)
        ensures
            (match self {
                AzCssProperty::FlexShrink(f) => r == Option::Some(f),
                _ => r is None,
            }),
    {
        match self {
            AzCssProperty::FlexShrink(f) => Option::Some(f),
            _ => Option::None,
        }
    }

    pub fn as_justify_content(&self) -> (r: Option<&AzLayoutJustifyContentValue>)
        ensures
            (match self {
                AzCssProperty::JustifyContent(f) => r == Option::Some(f),
                _ => r is None,
            }),
    {
        match self {
            AzCssProperty::JustifyContent(f) => Option::Some(f),
            _ => Option::None,
        }
    }

    pub fn as_align_items(&self) -> (r: Option<&AzLayoutAlignItemsValue>)
        ensures
            (match self {
                AzCssProperty::AlignItems(f) => r == Option::Some(f),
                _ => r is None,
            }),
    {
        match self {
            AzCssProperty::AlignItems(f) => Option::Some(f),
            _ => Option::None,
        }
    }

    pub fn as_align_content(&self) -> (r: Option<&AzLayoutAlignContentValue>)
        ensures
            (match self {
                AzCssProperty::AlignContent(f) => r == Option::Some(f),
                _ => r is None,
            }),
    {
        match self {
            AzCssProperty::AlignContent(f) => Option::Some(f),
            _ => Option::None,
        }
    }

}

} // verus!
