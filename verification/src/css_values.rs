//! The CSS value model: every typed value a styled property can hold.
//!
//! Fractional CSS numbers are carried as fixed-point integers — an
//! [`AzFloatValue`] holds the number times one thousand — so the whole model
//! stays within exact integer arithmetic.

use vstd::prelude::*;

use crate::optional::FfiOption;
use crate::string::AzString;
use crate::vector::Vector;
use crate::vector::VectorDestructor;

pub use self::AzAngleMetric as AngleMetric;
pub use self::AzAngleValue as AngleValue;
pub use self::AzBackgroundPositionHorizontal as BackgroundPositionHorizontal;
pub use self::AzBackgroundPositionVertical as BackgroundPositionVertical;
pub use self::AzBorderStyle as BorderStyle;
pub use self::AzBoxShadowClipMode as BoxShadowClipMode;
pub use self::AzColorU as ColorU;
pub use self::AzConicGradient as ConicGradient;
pub use self::AzCssImageId as CssImageId;
pub use self::AzDirection as Direction;
pub use self::AzDirectionCorner as DirectionCorner;
pub use self::AzDirectionCorners as DirectionCorners;
pub use self::AzExtendMode as ExtendMode;
pub use self::AzFloatValue as FloatValue;
pub use self::AzLayoutAlignContent as LayoutAlignContent;
pub use self::AzLayoutAlignContentValue as LayoutAlignContentValue;
pub use self::AzLayoutAlignItems as LayoutAlignItems;
pub use self::AzLayoutAlignItemsValue as LayoutAlignItemsValue;
pub use self::AzLayoutBorderBottomWidth as LayoutBorderBottomWidth;
pub use self::AzLayoutBorderBottomWidthValue as LayoutBorderBottomWidthValue;
pub use self::AzLayoutBorderLeftWidth as LayoutBorderLeftWidth;
pub use self::AzLayoutBorderLeftWidthValue as LayoutBorderLeftWidthValue;
pub use self::AzLayoutBorderRightWidth as LayoutBorderRightWidth;
pub use self::AzLayoutBorderRightWidthValue as LayoutBorderRightWidthValue;
pub use self::AzLayoutBorderTopWidth as LayoutBorderTopWidth;
pub use self::AzLayoutBorderTopWidthValue as LayoutBorderTopWidthValue;
pub use self::AzLayoutBottom as LayoutBottom;
pub use self::AzLayoutBottomValue as LayoutBottomValue;
pub use self::AzLayoutBoxSizing as LayoutBoxSizing;
pub use self::AzLayoutBoxSizingValue as LayoutBoxSizingValue;
pub use self::AzLayoutDisplay as LayoutDisplay;
pub use self::AzLayoutDisplayValue as LayoutDisplayValue;
pub use self::AzLayoutFlexDirection as LayoutFlexDirection;
pub use self::AzLayoutFlexDirectionValue as LayoutFlexDirectionValue;
pub use self::AzLayoutFlexGrow as LayoutFlexGrow;
pub use self::AzLayoutFlexGrowValue as LayoutFlexGrowValue;
pub use self::AzLayoutFlexShrink as LayoutFlexShrink;
pub use self::AzLayoutFlexShrinkValue as LayoutFlexShrinkValue;
pub use self::AzLayoutFlexWrap as LayoutFlexWrap;
pub use self::AzLayoutFlexWrapValue as LayoutFlexWrapValue;
pub use self::AzLayoutFloat as LayoutFloat;
pub use self::AzLayoutFloatValue as LayoutFloatValue;
pub use self::AzLayoutHeight as LayoutHeight;
pub use self::AzLayoutHeightValue as LayoutHeightValue;
pub use self::AzLayoutJustifyContent as LayoutJustifyContent;
pub use self::AzLayoutJustifyContentValue as LayoutJustifyContentValue;
pub use self::AzLayoutLeft as LayoutLeft;
pub use self::AzLayoutLeftValue as LayoutLeftValue;
pub use self::AzLayoutMarginBottom as LayoutMarginBottom;
pub use self::AzLayoutMarginBottomValue as LayoutMarginBottomValue;
pub use self::AzLayoutMarginLeft as LayoutMarginLeft;
pub use self::AzLayoutMarginLeftValue as LayoutMarginLeftValue;
pub use self::AzLayoutMarginRight as LayoutMarginRight;
pub use self::AzLayoutMarginRightValue as LayoutMarginRightValue;
pub use self::AzLayoutMarginTop as LayoutMarginTop;
pub use self::AzLayoutMarginTopValue as LayoutMarginTopValue;
pub use self::AzLayoutMaxHeight as LayoutMaxHeight;
pub use self::AzLayoutMaxHeightValue as LayoutMaxHeightValue;
pub use self::AzLayoutMaxWidth as LayoutMaxWidth;
pub use self::AzLayoutMaxWidthValue as LayoutMaxWidthValue;
pub use self::AzLayoutMinHeight as LayoutMinHeight;
pub use self::AzLayoutMinHeightValue as LayoutMinHeightValue;
pub use self::AzLayoutMinWidth as LayoutMinWidth;
pub use self::AzLayoutMinWidthValue as LayoutMinWidthValue;
pub use self::AzLayoutOverflow as LayoutOverflow;
pub use self::AzLayoutOverflowValue as LayoutOverflowValue;
pub use self::AzLayoutPaddingBottom as LayoutPaddingBottom;
pub use self::AzLayoutPaddingBottomValue as LayoutPaddingBottomValue;
pub use self::AzLayoutPaddingLeft as LayoutPaddingLeft;
pub use self::AzLayoutPaddingLeftValue as LayoutPaddingLeftValue;
pub use self::AzLayoutPaddingRight as LayoutPaddingRight;
pub use self::AzLayoutPaddingRightValue as LayoutPaddingRightValue;
pub use self::AzLayoutPaddingTop as LayoutPaddingTop;
pub use self::AzLayoutPaddingTopValue as LayoutPaddingTopValue;
pub use self::AzLayoutPosition as LayoutPosition;
pub use self::AzLayoutPositionValue as LayoutPositionValue;
pub use self::AzLayoutRight as LayoutRight;
pub use self::AzLayoutRightValue as LayoutRightValue;
pub use self::AzLayoutTop as LayoutTop;
pub use self::AzLayoutTopValue as LayoutTopValue;
pub use self::AzLayoutWidth as LayoutWidth;
pub use self::AzLayoutWidthValue as LayoutWidthValue;
pub use self::AzLinearColorStop as LinearColorStop;
pub use self::AzLinearGradient as LinearGradient;
pub use self::AzOptionAngleValue as OptionAngleValue;
pub use self::AzOptionPercentageValue as OptionPercentageValue;
pub use self::AzPercentageValue as PercentageValue;
pub use self::AzPixelValue as PixelValue;
pub use self::AzPixelValueNoPercent as PixelValueNoPercent;
pub use self::AzRadialColorStop as RadialColorStop;
pub use self::AzRadialGradient as RadialGradient;
pub use self::AzRadialGradientSize as RadialGradientSize;
pub use self::AzScrollbarInfo as ScrollbarInfo;
pub use self::AzScrollbarStyle as ScrollbarStyle;
pub use self::AzScrollbarStyleValue as ScrollbarStyleValue;
pub use self::AzShape as Shape;
pub use self::AzSizeMetric as SizeMetric;
pub use self::AzStyleBackfaceVisibility as StyleBackfaceVisibility;
pub use self::AzStyleBackfaceVisibilityValue as StyleBackfaceVisibilityValue;
pub use self::AzStyleBackgroundContent as StyleBackgroundContent;
pub use self::AzStyleBackgroundContentVecValue as StyleBackgroundContentVecValue;
pub use self::AzStyleBackgroundPosition as StyleBackgroundPosition;
pub use self::AzStyleBackgroundPositionVecValue as StyleBackgroundPositionVecValue;
pub use self::AzStyleBackgroundRepeat as StyleBackgroundRepeat;
pub use self::AzStyleBackgroundRepeatVecValue as StyleBackgroundRepeatVecValue;
pub use self::AzStyleBackgroundSize as StyleBackgroundSize;
pub use self::AzStyleBackgroundSizeVecValue as StyleBackgroundSizeVecValue;
pub use self::AzStyleBorderBottomColor as StyleBorderBottomColor;
pub use self::AzStyleBorderBottomColorValue as StyleBorderBottomColorValue;
pub use self::AzStyleBorderBottomLeftRadius as StyleBorderBottomLeftRadius;
pub use self::AzStyleBorderBottomLeftRadiusValue as StyleBorderBottomLeftRadiusValue;
pub use self::AzStyleBorderBottomRightRadius as StyleBorderBottomRightRadius;
pub use self::AzStyleBorderBottomRightRadiusValue as StyleBorderBottomRightRadiusValue;
pub use self::AzStyleBorderBottomStyle as StyleBorderBottomStyle;
pub use self::AzStyleBorderBottomStyleValue as StyleBorderBottomStyleValue;
pub use self::AzStyleBorderLeftColor as StyleBorderLeftColor;
pub use self::AzStyleBorderLeftColorValue as StyleBorderLeftColorValue;
pub use self::AzStyleBorderLeftStyle as StyleBorderLeftStyle;
pub use self::AzStyleBorderLeftStyleValue as StyleBorderLeftStyleValue;
pub use self::AzStyleBorderRightColor as StyleBorderRightColor;
pub use self::AzStyleBorderRightColorValue as StyleBorderRightColorValue;
pub use self::AzStyleBorderRightStyle as StyleBorderRightStyle;
pub use self::AzStyleBorderRightStyleValue as StyleBorderRightStyleValue;
pub use self::AzStyleBorderTopColor as StyleBorderTopColor;
pub use self::AzStyleBorderTopColorValue as StyleBorderTopColorValue;
pub use self::AzStyleBorderTopLeftRadius as StyleBorderTopLeftRadius;
pub use self::AzStyleBorderTopLeftRadiusValue as StyleBorderTopLeftRadiusValue;
pub use self::AzStyleBorderTopRightRadius as StyleBorderTopRightRadius;
pub use self::AzStyleBorderTopRightRadiusValue as StyleBorderTopRightRadiusValue;
pub use self::AzStyleBorderTopStyle as StyleBorderTopStyle;
pub use self::AzStyleBorderTopStyleValue as StyleBorderTopStyleValue;
pub use self::AzStyleBoxShadow as StyleBoxShadow;
pub use self::AzStyleBoxShadowValue as StyleBoxShadowValue;
pub use self::AzStyleCursor as StyleCursor;
pub use self::AzStyleCursorValue as StyleCursorValue;
pub use self::AzStyleFontFamily as StyleFontFamily;
pub use self::AzStyleFontFamilyValue as StyleFontFamilyValue;
pub use self::AzStyleFontSize as StyleFontSize;
pub use self::AzStyleFontSizeValue as StyleFontSizeValue;
pub use self::AzStyleLetterSpacing as StyleLetterSpacing;
pub use self::AzStyleLetterSpacingValue as StyleLetterSpacingValue;
pub use self::AzStyleLineHeight as StyleLineHeight;
pub use self::AzStyleLineHeightValue as StyleLineHeightValue;
pub use self::AzStyleOpacity as StyleOpacity;
pub use self::AzStyleOpacityValue as StyleOpacityValue;
pub use self::AzStylePerspectiveOrigin as StylePerspectiveOrigin;
pub use self::AzStylePerspectiveOriginValue as StylePerspectiveOriginValue;
pub use self::AzStyleTabWidth as StyleTabWidth;
pub use self::AzStyleTabWidthValue as StyleTabWidthValue;
pub use self::AzStyleTextAlignmentHorz as StyleTextAlignmentHorz;
pub use self::AzStyleTextAlignmentHorzValue as StyleTextAlignmentHorzValue;
pub use self::AzStyleTextColor as StyleTextColor;
pub use self::AzStyleTextColorValue as StyleTextColorValue;
pub use self::AzStyleTransform as StyleTransform;
pub use self::AzStyleTransformMatrix2D as StyleTransformMatrix2D;
pub use self::AzStyleTransformMatrix3D as StyleTransformMatrix3D;
pub use self::AzStyleTransformOrigin as StyleTransformOrigin;
pub use self::AzStyleTransformOriginValue as StyleTransformOriginValue;
pub use self::AzStyleTransformRotate3D as StyleTransformRotate3D;
pub use self::AzStyleTransformScale2D as StyleTransformScale2D;
pub use self::AzStyleTransformScale3D as StyleTransformScale3D;
pub use self::AzStyleTransformSkew2D as StyleTransformSkew2D;
pub use self::AzStyleTransformTranslate2D as StyleTransformTranslate2D;
pub use self::AzStyleTransformTranslate3D as StyleTransformTranslate3D;
pub use self::AzStyleTransformVecValue as StyleTransformVecValue;
pub use self::AzStyleWordSpacing as StyleWordSpacing;
pub use self::AzStyleWordSpacingValue as StyleWordSpacingValue;

verus! {

pub type AzLinearColorStopVec = Vector<AzLinearColorStop>;

pub type AzRadialColorStopVec = Vector<AzRadialColorStop>;

pub type AzStringVec = Vector<AzString>;

pub type AzStyleBackgroundContentVec = Vector<AzStyleBackgroundContent>;

pub type AzStyleBackgroundPositionVec = Vector<AzStyleBackgroundPosition>;

pub type AzStyleBackgroundRepeatVec = Vector<AzStyleBackgroundRepeat>;

pub type AzStyleBackgroundSizeVec = Vector<AzStyleBackgroundSize>;

pub type AzStyleTransformVec = Vector<AzStyleTransform>;

pub type AzLinearColorStopVecDestructor = VectorDestructor;

pub type AzRadialColorStopVecDestructor = VectorDestructor;

pub type AzStringVecDestructor = VectorDestructor;

pub type AzStyleBackgroundContentVecDestructor = VectorDestructor;

pub type AzStyleBackgroundPositionVecDestructor = VectorDestructor;

pub type AzStyleBackgroundRepeatVecDestructor = VectorDestructor;

pub type AzStyleBackgroundSizeVecDestructor = VectorDestructor;

pub type AzStyleTransformVecDestructor = VectorDestructor;

#[derive(Debug, Clone, Copy, PartialEq)]
pub enum AzAngleMetric {
    Degree,
    Radians,
    Grad,
    Turn,
    Percent,
}

#[derive(Debug, Clone, Copy, PartialEq)]
pub struct AzAngleValue {
    pub metric: AzAngleMetric,
    pub number: AzFloatValue,
}

#[derive(Debug, Clone, Copy, PartialEq)]
pub enum AzBackgroundPositionHorizontal {
    Left,
    Center,
    Right,
    Exact(AzPixelValue),
}

#[derive(Debug, Clone, Copy, PartialEq)]
pub enum AzBackgroundPositionVertical {
    Top,
    Center,
    Bottom,
    Exact(AzPixelValue),
}

#[derive(Debug, Clone, Copy, PartialEq)]
pub enum AzBorderStyle {
    NoValue,
    Solid,
    Double,
    Dotted,
    Dashed,
    Hidden,
    Groove,
    Ridge,
    Inset,
    Outset,
}

#[derive(Debug, Clone, Copy, PartialEq)]
pub enum AzBoxShadowClipMode {
    Outset,
    Inset,
}

#[derive(Debug, Clone, Copy, PartialEq)]
pub struct AzColorU {
    pub r: u8,
    pub g: u8,
    pub b: u8,
    pub a: u8,
}

#[derive(Debug, PartialEq)]
pub struct AzConicGradient {
    pub extend_mode: AzExtendMode,
    pub center: AzStyleBackgroundPosition,
    pub angle: AzAngleValue,
    pub stops: AzRadialColorStopVec,
}

#[derive(Debug, PartialEq)]
pub struct AzCssImageId {
    pub inner: AzString,
}

#[derive(Debug, Clone, Copy, PartialEq)]
pub enum AzDirection {
    Angle(AzAngleValue),
    FromTo(AzDirectionCorners),
}

#[derive(Debug, Clone, Copy, PartialEq)]
pub enum AzDirectionCorner {
    Right,
    Left,
    Top,
    Bottom,
    TopRight,
    TopLeft,
    BottomRight,
    BottomLeft,
}

#[derive(Debug, Clone, Copy, PartialEq)]
pub struct AzDirectionCorners {
    pub from: AzDirectionCorner,
    pub to: AzDirectionCorner,
}

#[derive(Debug, Clone, Copy, PartialEq)]
pub enum AzExtendMode {
    Clamp,
    Repeat,
}

#[derive(Debug, Clone, Copy, PartialEq)]
pub struct AzFloatValue {
    pub number: isize,
}

#[derive(Debug, Clone, Copy, PartialEq)]
pub enum AzLayoutAlignContent {
    Stretch,
    Center,
    Start,
    End,
    SpaceBetween,
    SpaceAround,
}

#[derive(Debug, Clone, Copy, PartialEq)]
pub enum AzLayoutAlignContentValue {
    Auto,
    NoValue,
    Inherit,
    Initial,
    Exact(AzLayoutAlignContent),
}

#[derive(Debug, Clone, Copy, PartialEq)]
pub enum AzLayoutAlignItems {
    Stretch,
    Center,
    FlexStart,
    FlexEnd,
}

#[derive(Debug, Clone, Copy, PartialEq)]
pub enum AzLayoutAlignItemsValue {
    Auto,
    NoValue,
    Inherit,
    Initial,
    Exact(AzLayoutAlignItems),
}

#[derive(Debug, Clone, Copy, PartialEq)]
pub struct AzLayoutBorderBottomWidth {
    pub inner: AzPixelValue,
}

#[derive(Debug, Clone, Copy, PartialEq)]
pub enum AzLayoutBorderBottomWidthValue {
    Auto,
    NoValue,
    Inherit,
    Initial,
    Exact(AzLayoutBorderBottomWidth),
}

#[derive(Debug, Clone, Copy, PartialEq)]
pub struct AzLayoutBorderLeftWidth {
    pub inner: AzPixelValue,
}

#[derive(Debug, Clone, Copy, PartialEq)]
pub enum AzLayoutBorderLeftWidthValue {
    Auto,
    NoValue,
    Inherit,
    Initial,
    Exact(AzLayoutBorderLeftWidth),
}

#[derive(Debug, Clone, Copy, PartialEq)]
pub struct AzLayoutBorderRightWidth {
    pub inner: AzPixelValue,
}

#[derive(Debug, Clone, Copy, PartialEq)]
pub enum AzLayoutBorderRightWidthValue {
    Auto,
    NoValue,
    Inherit,
    Initial,
    Exact(AzLayoutBorderRightWidth),
}

#[derive(Debug, Clone, Copy, PartialEq)]
pub struct AzLayoutBorderTopWidth {
    pub inner: AzPixelValue,
}

#[derive(Debug, Clone, Copy, PartialEq)]
pub enum AzLayoutBorderTopWidthValue {
    Auto,
    NoValue,
    Inherit,
    Initial,
    Exact(AzLayoutBorderTopWidth),
}

#[derive(Debug, Clone, Copy, PartialEq)]
pub struct AzLayoutBottom {
    pub inner: AzPixelValue,
}

#[derive(Debug, Clone, Copy, PartialEq)]
pub enum AzLayoutBottomValue {
    Auto,
    NoValue,
    Inherit,
    Initial,
    Exact(AzLayoutBottom),
}

#[derive(Debug, Clone, Copy, PartialEq)]
pub enum AzLayoutBoxSizing {
    ContentBox,
    BorderBox,
}

#[derive(Debug, Clone, Copy, PartialEq)]
pub enum AzLayoutBoxSizingValue {
    Auto,
    NoValue,
    Inherit,
    Initial,
    Exact(AzLayoutBoxSizing),
}

#[derive(Debug, Clone, Copy, PartialEq)]
pub enum AzLayoutDisplay {
    Flex,
    Block,
    InlineBlock,
}

#[derive(Debug, Clone, Copy, PartialEq)]
pub enum AzLayoutDisplayValue {
    Auto,
    NoValue,
    Inherit,
    Initial,
    Exact(AzLayoutDisplay),
}

#[derive(Debug, Clone, Copy, PartialEq)]
pub enum AzLayoutFlexDirection {
    Row,
    RowReverse,
    Column,
    ColumnReverse,
}

#[derive(Debug, Clone, Copy, PartialEq)]
pub enum AzLayoutFlexDirectionValue {
    Auto,
    NoValue,
    Inherit,
    Initial,
    Exact(AzLayoutFlexDirection),
}

#[derive(Debug, Clone, Copy, PartialEq)]
pub struct AzLayoutFlexGrow {
    pub inner: AzFloatValue,
}

#[derive(Debug, Clone, Copy, PartialEq)]
pub enum AzLayoutFlexGrowValue {
    Auto,
    NoValue,
    Inherit,
    Initial,
    Exact(AzLayoutFlexGrow),
}

#[derive(Debug, Clone, Copy, PartialEq)]
pub struct AzLayoutFlexShrink {
    pub inner: AzFloatValue,
}

#[derive(Debug, Clone, Copy, PartialEq)]
pub enum AzLayoutFlexShrinkValue {
    Auto,
    NoValue,
    Inherit,
    Initial,
    Exact(AzLayoutFlexShrink),
}

#[derive(Debug, Clone, Copy, PartialEq)]
pub enum AzLayoutFlexWrap {
    Wrap,
    NoWrap,
}

#[derive(Debug, Clone, Copy, PartialEq)]
pub enum AzLayoutFlexWrapValue {
    Auto,
    NoValue,
    Inherit,
    Initial,
    Exact(AzLayoutFlexWrap),
}

#[derive(Debug, Clone, Copy, PartialEq)]
pub enum AzLayoutFloat {
    Left,
    Right,
}

#[derive(Debug, Clone, Copy, PartialEq)]
pub enum AzLayoutFloatValue {
    Auto,
    NoValue,
    Inherit,
    Initial,
    Exact(AzLayoutFloat),
}

#[derive(Debug, Clone, Copy, PartialEq)]
pub struct AzLayoutHeight {
    pub inner: AzPixelValue,
}

#[derive(Debug, Clone, Copy, PartialEq)]
pub enum AzLayoutHeightValue {
    Auto,
    NoValue,
    Inherit,
    Initial,
    Exact(AzLayoutHeight),
}

#[derive(Debug, Clone, Copy, PartialEq)]
pub enum AzLayoutJustifyContent {
    Start,
    End,
    Center,
    SpaceBetween,
    SpaceAround,
    SpaceEvenly,
}

#[derive(Debug, Clone, Copy, PartialEq)]
pub enum AzLayoutJustifyContentValue {
    Auto,
    NoValue,
    Inherit,
    Initial,
    Exact(AzLayoutJustifyContent),
}

#[derive(Debug, Clone, Copy, PartialEq)]
pub struct AzLayoutLeft {
    pub inner: AzPixelValue,
}

#[derive(Debug, Clone, Copy, PartialEq)]
pub enum AzLayoutLeftValue {
    Auto,
    NoValue,
    Inherit,
    Initial,
    Exact(AzLayoutLeft),
}

#[derive(Debug, Clone, Copy, PartialEq)]
pub struct AzLayoutMarginBottom {
    pub inner: AzPixelValue,
}

#[derive(Debug, Clone, Copy, PartialEq)]
pub enum AzLayoutMarginBottomValue {
    Auto,
    NoValue,
    Inherit,
    Initial,
    Exact(AzLayoutMarginBottom),
}

#[derive(Debug, Clone, Copy, PartialEq)]
pub struct AzLayoutMarginLeft {
    pub inner: AzPixelValue,
}

#[derive(Debug, Clone, Copy, PartialEq)]
pub enum AzLayoutMarginLeftValue {
    Auto,
    NoValue,
    Inherit,
    Initial,
    Exact(AzLayoutMarginLeft),
}

#[derive(Debug, Clone, Copy, PartialEq)]
pub struct AzLayoutMarginRight {
    pub inner: AzPixelValue,
}

#[derive(Debug, Clone, Copy, PartialEq)]
pub enum AzLayoutMarginRightValue {
    Auto,
    NoValue,
    Inherit,
    Initial,
    Exact(AzLayoutMarginRight),
}

#[derive(Debug, Clone, Copy, PartialEq)]
pub struct AzLayoutMarginTop {
    pub inner: AzPixelValue,
}

#[derive(Debug, Clone, Copy, PartialEq)]
pub enum AzLayoutMarginTopValue {
    Auto,
    NoValue,
    Inherit,
    Initial,
    Exact(AzLayoutMarginTop),
}

#[derive(Debug, Clone, Copy, PartialEq)]
pub struct AzLayoutMaxHeight {
    pub inner: AzPixelValue,
}

#[derive(Debug, Clone, Copy, PartialEq)]
pub enum AzLayoutMaxHeightValue {
    Auto,
    NoValue,
    Inherit,
    Initial,
    Exact(AzLayoutMaxHeight),
}

#[derive(Debug, Clone, Copy, PartialEq)]
pub struct AzLayoutMaxWidth {
    pub inner: AzPixelValue,
}

#[derive(Debug, Clone, Copy, PartialEq)]
pub enum AzLayoutMaxWidthValue {
    Auto,
    NoValue,
    Inherit,
    Initial,
    Exact(AzLayoutMaxWidth),
}

#[derive(Debug, Clone, Copy, PartialEq)]
pub struct AzLayoutMinHeight {
    pub inner: AzPixelValue,
}

#[derive(Debug, Clone, Copy, PartialEq)]
pub enum AzLayoutMinHeightValue {
    Auto,
    NoValue,
    Inherit,
    Initial,
    Exact(AzLayoutMinHeight),
}

#[derive(Debug, Clone, Copy, PartialEq)]
pub struct AzLayoutMinWidth {
    pub inner: AzPixelValue,
}

#[derive(Debug, Clone, Copy, PartialEq)]
pub enum AzLayoutMinWidthValue {
    Auto,
    NoValue,
    Inherit,
    Initial,
    Exact(AzLayoutMinWidth),
}

#[derive(Debug, Clone, Copy, PartialEq)]
pub enum AzLayoutOverflow {
    Scroll,
    Auto,
    Hidden,
    Visible,
}

#[derive(Debug, Clone, Copy, PartialEq)]
pub enum AzLayoutOverflowValue {
    Auto,
    NoValue,
    Inherit,
    Initial,
    Exact(AzLayoutOverflow),
}

#[derive(Debug, Clone, Copy, PartialEq)]
pub struct AzLayoutPaddingBottom {
    pub inner: AzPixelValue,
}

#[derive(Debug, Clone, Copy, PartialEq)]
pub enum AzLayoutPaddingBottomValue {
    Auto,
    NoValue,
    Inherit,
    Initial,
    Exact(AzLayoutPaddingBottom),
}

#[derive(Debug, Clone, Copy, PartialEq)]
pub struct AzLayoutPaddingLeft {
    pub inner: AzPixelValue,
}

#[derive(Debug, Clone, Copy, PartialEq)]
pub enum AzLayoutPaddingLeftValue {
    Auto,
    NoValue,
    Inherit,
    Initial,
    Exact(AzLayoutPaddingLeft),
}

#[derive(Debug, Clone, Copy, PartialEq)]
pub struct AzLayoutPaddingRight {
    pub inner: AzPixelValue,
}

#[derive(Debug, Clone, Copy, PartialEq)]
pub enum AzLayoutPaddingRightValue {
    Auto,
    NoValue,
    Inherit,
    Initial,
    Exact(AzLayoutPaddingRight),
}

#[derive(Debug, Clone, Copy, PartialEq)]
pub struct AzLayoutPaddingTop {
    pub inner: AzPixelValue,
}

#[derive(Debug, Clone, Copy, PartialEq)]
pub enum AzLayoutPaddingTopValue {
    Auto,
    NoValue,
    Inherit,
    Initial,
    Exact(AzLayoutPaddingTop),
}

#[derive(Debug, Clone, Copy, PartialEq)]
pub enum AzLayoutPosition {
    Static,
    Relative,
    Absolute,
    Fixed,
}

#[derive(Debug, Clone, Copy, PartialEq)]
pub enum AzLayoutPositionValue {
    Auto,
    NoValue,
    Inherit,
    Initial,
    Exact(AzLayoutPosition),
}

#[derive(Debug, Clone, Copy, PartialEq)]
pub struct AzLayoutRight {
    pub inner: AzPixelValue,
}

#[derive(Debug, Clone, Copy, PartialEq)]
pub enum AzLayoutRightValue {
    Auto,
    NoValue,
    Inherit,
    Initial,
    Exact(AzLayoutRight),
}

#[derive(Debug, Clone, Copy, PartialEq)]
pub struct AzLayoutTop {
    pub inner: AzPixelValue,
}

#[derive(Debug, Clone, Copy, PartialEq)]
pub enum AzLayoutTopValue {
    Auto,
    NoValue,
    Inherit,
    Initial,
    Exact(AzLayoutTop),
}

#[derive(Debug, Clone, Copy, PartialEq)]
pub struct AzLayoutWidth {
    pub inner: AzPixelValue,
}

#[derive(Debug, Clone, Copy, PartialEq)]
pub enum AzLayoutWidthValue {
    Auto,
    NoValue,
    Inherit,
    Initial,
    Exact(AzLayoutWidth),
}

#[derive(Debug, Clone, Copy, PartialEq)]
pub struct AzLinearColorStop {
    pub offset: AzOptionPercentageValue,
    pub color: AzColorU,
}

#[derive(Debug, PartialEq)]
pub struct AzLinearGradient {
    pub direction: AzDirection,
    pub extend_mode: AzExtendMode,
    pub stops: AzLinearColorStopVec,
}

pub type AzOptionAngleValue = FfiOption<AzAngleValue>;

pub type AzOptionPercentageValue = FfiOption<AzPercentageValue>;

#[derive(Debug, Clone, Copy, PartialEq)]
pub struct AzPercentageValue {
    pub number: AzFloatValue,
}

#[derive(Debug, Clone, Copy, PartialEq)]
pub struct AzPixelValue {
    pub metric: AzSizeMetric,
    pub number: AzFloatValue,
}

#[derive(Debug, Clone, Copy, PartialEq)]
pub struct AzPixelValueNoPercent {
    pub inner: AzPixelValue,
}

#[derive(Debug, Clone, Copy, PartialEq)]
pub struct AzRadialColorStop {
    pub offset: AzOptionAngleValue,
    pub color: AzColorU,
}

#[derive(Debug, PartialEq)]
pub struct AzRadialGradient {
    pub shape: AzShape,
    pub size: AzRadialGradientSize,
    pub position: AzStyleBackgroundPosition,
    pub extend_mode: AzExtendMode,
    pub stops: AzLinearColorStopVec,
}

#[derive(Debug, Clone, Copy, PartialEq)]
pub enum AzRadialGradientSize {
    ClosestSide,
    ClosestCorner,
    FarthestSide,
    FarthestCorner,
}

#[derive(Debug, PartialEq)]
pub struct AzScrollbarInfo {
    pub width: AzLayoutWidth,
    pub padding_left: AzLayoutPaddingLeft,
    pub padding_right: AzLayoutPaddingRight,
    pub track: AzStyleBackgroundContent,
    pub thumb: AzStyleBackgroundContent,
    pub button: AzStyleBackgroundContent,
    pub corner: AzStyleBackgroundContent,
    pub resizer: AzStyleBackgroundContent,
}

#[derive(Debug, PartialEq)]
pub struct AzScrollbarStyle {
    pub horizontal: AzScrollbarInfo,
    pub vertical: AzScrollbarInfo,
}

#[derive(Debug, PartialEq)]
pub enum AzScrollbarStyleValue {
    Auto,
    NoValue,
    Inherit,
    Initial,
    Exact(AzScrollbarStyle),
}

#[derive(Debug, Clone, Copy, PartialEq)]
pub enum AzShape {
    Ellipse,
    Circle,
}

#[derive(Debug, Clone, Copy, PartialEq)]
pub enum AzSizeMetric {
    Px,
    Pt,
    Em,
    Percent,
}

#[derive(Debug, Clone, Copy, PartialEq)]
pub enum AzStyleBackfaceVisibility {
    Hidden,
    Visible,
}

#[derive(Debug, Clone, Copy, PartialEq)]
pub enum AzStyleBackfaceVisibilityValue {
    Auto,
    NoValue,
    Inherit,
    Initial,
    Exact(AzStyleBackfaceVisibility),
}

#[derive(Debug, PartialEq)]
pub enum AzStyleBackgroundContent {
    LinearGradient(AzLinearGradient),
    RadialGradient(AzRadialGradient),
    ConicGradient(AzConicGradient),
    Image(AzCssImageId),
    Color(AzColorU),
}

#[derive(Debug, PartialEq)]
pub enum AzStyleBackgroundContentVecValue {
    Auto,
    NoValue,
    Inherit,
    Initial,
    Exact(AzStyleBackgroundContentVec),
}

#[derive(Debug, Clone, Copy, PartialEq)]
pub struct AzStyleBackgroundPosition {
    pub horizontal: AzBackgroundPositionHorizontal,
    pub vertical: AzBackgroundPositionVertical,
}

#[derive(Debug, PartialEq)]
pub enum AzStyleBackgroundPositionVecValue {
    Auto,
    NoValue,
    Inherit,
    Initial,
    Exact(AzStyleBackgroundPositionVec),
}

#[derive(Debug, Clone, Copy, PartialEq)]
pub enum AzStyleBackgroundRepeat {
    NoRepeat,
    Repeat,
    RepeatX,
    RepeatY,
}

#[derive(Debug, PartialEq)]
pub enum AzStyleBackgroundRepeatVecValue {
    Auto,
    NoValue,
    Inherit,
    Initial,
    Exact(AzStyleBackgroundRepeatVec),
}

#[derive(Debug, Clone, Copy, PartialEq)]
pub enum AzStyleBackgroundSize {
    ExactSize([AzPixelValue;2]),
    Contain,
    Cover,
}

#[derive(Debug, PartialEq)]
pub enum AzStyleBackgroundSizeVecValue {
    Auto,
    NoValue,
    Inherit,
    Initial,
    Exact(AzStyleBackgroundSizeVec),
}

#[derive(Debug, Clone, Copy, PartialEq)]
pub struct AzStyleBorderBottomColor {
    pub inner: AzColorU,
}

#[derive(Debug, Clone, Copy, PartialEq)]
pub enum AzStyleBorderBottomColorValue {
    Auto,
    NoValue,
    Inherit,
    Initial,
    Exact(AzStyleBorderBottomColor),
}

#[derive(Debug, Clone, Copy, PartialEq)]
pub struct AzStyleBorderBottomLeftRadius {
    pub inner: AzPixelValue,
}

#[derive(Debug, Clone, Copy, PartialEq)]
pub enum AzStyleBorderBottomLeftRadiusValue {
    Auto,
    NoValue,
    Inherit,
    Initial,
    Exact(AzStyleBorderBottomLeftRadius),
}

#[derive(Debug, Clone, Copy, PartialEq)]
pub struct AzStyleBorderBottomRightRadius {
    pub inner: AzPixelValue,
}

#[derive(Debug, Clone, Copy, PartialEq)]
pub enum AzStyleBorderBottomRightRadiusValue {
    Auto,
    NoValue,
    Inherit,
    Initial,
    Exact(AzStyleBorderBottomRightRadius),
}

#[derive(Debug, Clone, Copy, PartialEq)]
pub struct AzStyleBorderBottomStyle {
    pub inner: AzBorderStyle,
}

#[derive(Debug, Clone, Copy, PartialEq)]
pub enum AzStyleBorderBottomStyleValue {
    Auto,
    NoValue,
    Inherit,
    Initial,
    Exact(AzStyleBorderBottomStyle),
}

#[derive(Debug, Clone, Copy, PartialEq)]
pub struct AzStyleBorderLeftColor {
    pub inner: AzColorU,
}

#[derive(Debug, Clone, Copy, PartialEq)]
pub enum AzStyleBorderLeftColorValue {
    Auto,
    NoValue,
    Inherit,
    Initial,
    Exact(AzStyleBorderLeftColor),
}

#[derive(Debug, Clone, Copy, PartialEq)]
pub struct AzStyleBorderLeftStyle {
    pub inner: AzBorderStyle,
}

#[derive(Debug, Clone, Copy, PartialEq)]
pub enum AzStyleBorderLeftStyleValue {
    Auto,
    NoValue,
    Inherit,
    Initial,
    Exact(AzStyleBorderLeftStyle),
}

#[derive(Debug, Clone, Copy, PartialEq)]
pub struct AzStyleBorderRightColor {
    pub inner: AzColorU,
}

#[derive(Debug, Clone, Copy, PartialEq)]
pub enum AzStyleBorderRightColorValue {
    Auto,
    NoValue,
    Inherit,
    Initial,
    Exact(AzStyleBorderRightColor),
}

#[derive(Debug, Clone, Copy, PartialEq)]
pub struct AzStyleBorderRightStyle {
    pub inner: AzBorderStyle,
}

#[derive(Debug, Clone, Copy, PartialEq)]
pub enum AzStyleBorderRightStyleValue {
    Auto,
    NoValue,
    Inherit,
    Initial,
    Exact(AzStyleBorderRightStyle),
}

#[derive(Debug, Clone, Copy, PartialEq)]
pub struct AzStyleBorderTopColor {
    pub inner: AzColorU,
}

#[derive(Debug, Clone, Copy, PartialEq)]
pub enum AzStyleBorderTopColorValue {
    Auto,
    NoValue,
    Inherit,
    Initial,
    Exact(AzStyleBorderTopColor),
}

#[derive(Debug, Clone, Copy, PartialEq)]
pub struct AzStyleBorderTopLeftRadius {
    pub inner: AzPixelValue,
}

#[derive(Debug, Clone, Copy, PartialEq)]
pub enum AzStyleBorderTopLeftRadiusValue {
    Auto,
    NoValue,
    Inherit,
    Initial,
    Exact(AzStyleBorderTopLeftRadius),
}

#[derive(Debug, Clone, Copy, PartialEq)]
pub struct AzStyleBorderTopRightRadius {
    pub inner: AzPixelValue,
}

#[derive(Debug, Clone, Copy, PartialEq)]
pub enum AzStyleBorderTopRightRadiusValue {
    Auto,
    NoValue,
    Inherit,
    Initial,
    Exact(AzStyleBorderTopRightRadius),
}

#[derive(Debug, Clone, Copy, PartialEq)]
pub struct AzStyleBorderTopStyle {
    pub inner: AzBorderStyle,
}

#[derive(Debug, Clone, Copy, PartialEq)]
pub enum AzStyleBorderTopStyleValue {
    Auto,
    NoValue,
    Inherit,
    Initial,
    Exact(AzStyleBorderTopStyle),
}

#[derive(Debug, Clone, Copy, PartialEq)]
pub struct AzStyleBoxShadow {
    pub offset: [AzPixelValueNoPercent;2],
    pub color: AzColorU,
    pub blur_radius: AzPixelValueNoPercent,
    pub spread_radius: AzPixelValueNoPercent,
    pub clip_mode: AzBoxShadowClipMode,
}

#[derive(Debug, Clone, Copy, PartialEq)]
pub enum AzStyleBoxShadowValue {
    Auto,
    NoValue,
    Inherit,
    Initial,
    Exact(AzStyleBoxShadow),
}

#[derive(Debug, Clone, Copy, PartialEq)]
pub enum AzStyleCursor {
    Alias,
    AllScroll,
    Cell,
    ColResize,
    ContextMenu,
    CopyCursor,
    Crosshair,
    DefaultCursor,
    EResize,
    EwResize,
    Grab,
    Grabbing,
    Help,
    Move,
    NResize,
    NsResize,
    NeswResize,
    NwseResize,
    Pointer,
    Progress,
    RowResize,
    SResize,
    SeResize,
    Text,
    Unset,
    VerticalText,
    WResize,
    Wait,
    ZoomIn,
    ZoomOut,
}

#[derive(Debug, Clone, Copy, PartialEq)]
pub enum AzStyleCursorValue {
    Auto,
    NoValue,
    Inherit,
    Initial,
    Exact(AzStyleCursor),
}

#[derive(Debug, PartialEq)]
pub struct AzStyleFontFamily {
    pub fonts: AzStringVec,
}

#[derive(Debug, PartialEq)]
pub enum AzStyleFontFamilyValue {
    Auto,
    NoValue,
    Inherit,
    Initial,
    Exact(AzStyleFontFamily),
}

#[derive(Debug, Clone, Copy, PartialEq)]
pub struct AzStyleFontSize {
    pub inner: AzPixelValue,
}

#[derive(Debug, Clone, Copy, PartialEq)]
pub enum AzStyleFontSizeValue {
    Auto,
    NoValue,
    Inherit,
    Initial,
    Exact(AzStyleFontSize),
}

#[derive(Debug, Clone, Copy, PartialEq)]
pub struct AzStyleLetterSpacing {
    pub inner: AzPixelValue,
}

#[derive(Debug, Clone, Copy, PartialEq)]
pub enum AzStyleLetterSpacingValue {
    Auto,
    NoValue,
    Inherit,
    Initial,
    Exact(AzStyleLetterSpacing),
}

#[derive(Debug, Clone, Copy, PartialEq)]
pub struct AzStyleLineHeight {
    pub inner: AzPercentageValue,
}

#[derive(Debug, Clone, Copy, PartialEq)]
pub enum AzStyleLineHeightValue {
    Auto,
    NoValue,
    Inherit,
    Initial,
    Exact(AzStyleLineHeight),
}

#[derive(Debug, Clone, Copy, PartialEq)]
pub struct AzStyleOpacity {
    pub inner: AzFloatValue,
}

#[derive(Debug, Clone, Copy, PartialEq)]
pub enum AzStyleOpacityValue {
    Auto,
    NoValue,
    Inherit,
    Initial,
    Exact(AzStyleOpacity),
}

#[derive(Debug, Clone, Copy, PartialEq)]
pub struct AzStylePerspectiveOrigin {
    pub x: AzPixelValue,
    pub y: AzPixelValue,
}

#[derive(Debug, Clone, Copy, PartialEq)]
pub enum AzStylePerspectiveOriginValue {
    Auto,
    NoValue,
    Inherit,
    Initial,
    Exact(AzStylePerspectiveOrigin),
}

#[derive(Debug, Clone, Copy, PartialEq)]
pub struct AzStyleTabWidth {
    pub inner: AzPercentageValue,
}

#[derive(Debug, Clone, Copy, PartialEq)]
pub enum AzStyleTabWidthValue {
    Auto,
    NoValue,
    Inherit,
    Initial,
    Exact(AzStyleTabWidth),
}

#[derive(Debug, Clone, Copy, PartialEq)]
pub enum AzStyleTextAlignmentHorz {
    Left,
    Center,
    Right,
}

#[derive(Debug, Clone, Copy, PartialEq)]
pub enum AzStyleTextAlignmentHorzValue {
    Auto,
    NoValue,
    Inherit,
    Initial,
    Exact(AzStyleTextAlignmentHorz),
}

#[derive(Debug, Clone, Copy, PartialEq)]
pub struct AzStyleTextColor {
    pub inner: AzColorU,
}

#[derive(Debug, Clone, Copy, PartialEq)]
pub enum AzStyleTextColorValue {
    Auto,
    NoValue,
    Inherit,
    Initial,
    Exact(AzStyleTextColor),
}

#[derive(Debug, Clone, Copy, PartialEq)]
pub enum AzStyleTransform {
    Matrix(AzStyleTransformMatrix2D),
    Matrix3D(AzStyleTransformMatrix3D),
    Translate(AzStyleTransformTranslate2D),
    Translate3D(AzStyleTransformTranslate3D),
    TranslateX(AzPixelValue),
    TranslateY(AzPixelValue),
    TranslateZ(AzPixelValue),
    Rotate(AzPercentageValue),
    Rotate3D(AzStyleTransformRotate3D),
    RotateX(AzPercentageValue),
    RotateY(AzPercentageValue),
    RotateZ(AzPercentageValue),
    Scale(AzStyleTransformScale2D),
    Scale3D(AzStyleTransformScale3D),
    ScaleX(AzPercentageValue),
    ScaleY(AzPercentageValue),
    ScaleZ(AzPercentageValue),
    Skew(AzStyleTransformSkew2D),
    SkewX(AzPercentageValue),
    SkewY(AzPercentageValue),
    Perspective(AzPixelValue),
}

#[derive(Debug, Clone, Copy, PartialEq)]
pub struct AzStyleTransformMatrix2D {
    pub a: AzPixelValue,
    pub b: AzPixelValue,
    pub c: AzPixelValue,
    pub d: AzPixelValue,
    pub tx: AzPixelValue,
    pub ty: AzPixelValue,
}

#[derive(Debug, Clone, Copy, PartialEq)]
pub struct AzStyleTransformMatrix3D {
    pub m11: AzPixelValue,
    pub m12: AzPixelValue,
    pub m13: AzPixelValue,
    pub m14: AzPixelValue,
    pub m21: AzPixelValue,
    pub m22: AzPixelValue,
    pub m23: AzPixelValue,
    pub m24: AzPixelValue,
    pub m31: AzPixelValue,
    pub m32: AzPixelValue,
    pub m33: AzPixelValue,
    pub m34: AzPixelValue,
    pub m41: AzPixelValue,
    pub m42: AzPixelValue,
    pub m43: AzPixelValue,
    pub m44: AzPixelValue,
}

#[derive(Debug, Clone, Copy, PartialEq)]
pub struct AzStyleTransformOrigin {
    pub x: AzPixelValue,
    pub y: AzPixelValue,
}

#[derive(Debug, Clone, Copy, PartialEq)]
pub enum AzStyleTransformOriginValue {
    Auto,
    NoValue,
    Inherit,
    Initial,
    Exact(AzStyleTransformOrigin),
}

#[derive(Debug, Clone, Copy, PartialEq)]
pub struct AzStyleTransformRotate3D {
    pub x: AzPercentageValue,
    pub y: AzPercentageValue,
    pub z: AzPercentageValue,
    pub angle: AzAngleValue,
}

#[derive(Debug, Clone, Copy, PartialEq)]
pub struct AzStyleTransformScale2D {
    pub x: AzPercentageValue,
    pub y: AzPercentageValue,
}

#[derive(Debug, Clone, Copy, PartialEq)]
pub struct AzStyleTransformScale3D {
    pub x: AzPercentageValue,
    pub y: AzPercentageValue,
    pub z: AzPercentageValue,
}

#[derive(Debug, Clone, Copy, PartialEq)]
pub struct AzStyleTransformSkew2D {
    pub x: AzPercentageValue,
    pub y: AzPercentageValue,
}

#[derive(Debug, Clone, Copy, PartialEq)]
pub struct AzStyleTransformTranslate2D {
    pub x: AzPixelValue,
    pub y: AzPixelValue,
}

#[derive(Debug, Clone, Copy, PartialEq)]
pub struct AzStyleTransformTranslate3D {
    pub x: AzPixelValue,
    pub y: AzPixelValue,
    pub z: AzPixelValue,
}

#[derive(Debug, PartialEq)]
pub enum AzStyleTransformVecValue {
    Auto,
    NoValue,
    Inherit,
    Initial,
    Exact(AzStyleTransformVec),
}

#[derive(Debug, Clone, Copy, PartialEq)]
pub struct AzStyleWordSpacing {
    pub inner: AzPixelValue,
}

#[derive(Debug, Clone, Copy, PartialEq)]
pub enum AzStyleWordSpacingValue {
    Auto,
    NoValue,
    Inherit,
    Initial,
    Exact(AzStyleWordSpacing),
}

} // verus!

verus! {

/// Fractional CSS numbers are stored as thousandths, so `const_new(2)`
/// carries the number two as two thousand.
pub const FP_PRECISION_MULTIPLIER_CONST: isize = 1000;

impl FloatValue {
    /// The fixed-point form of a whole number.
    pub fn const_new(value: isize) -> (r: AzFloatValue)
        requires
            isize::MIN <= value * FP_PRECISION_MULTIPLIER_CONST <= isize::MAX,
        ensures
            r.number == value * FP_PRECISION_MULTIPLIER_CONST,
    {
        AzFloatValue { number: value * FP_PRECISION_MULTIPLIER_CONST }
    }
}

impl PixelValue {
    pub fn zero() -> (r: AzPixelValue)
        ensures
            r.metric == AzSizeMetric::Px,
            r.number.number == 0,
    {
        PixelValue::const_px(0)
    }

    /// A whole number of pixels.
    pub fn const_px(value: isize) -> (r: AzPixelValue)
        requires
            isize::MIN <= value * FP_PRECISION_MULTIPLIER_CONST <= isize::MAX,
        ensures
            r.metric == AzSizeMetric::Px,
            r.number.number == value * FP_PRECISION_MULTIPLIER_CONST,
    {
        PixelValue::const_from_metric(AzSizeMetric::Px, value)
    }

    /// A whole number of font-size units.
    pub fn const_em(value: isize) -> (r: AzPixelValue)
        requires
            isize::MIN <= value * FP_PRECISION_MULTIPLIER_CONST <= isize::MAX,
        ensures
            r.metric == AzSizeMetric::Em,
            r.number.number == value * FP_PRECISION_MULTIPLIER_CONST,
    {
        PixelValue::const_from_metric(AzSizeMetric::Em, value)
    }

    /// A whole number of points.
    pub fn const_pt(value: isize) -> (r: AzPixelValue)
        requires
            isize::MIN <= value * FP_PRECISION_MULTIPLIER_CONST <= isize::MAX,
        ensures
            r.metric == AzSizeMetric::Pt,
            r.number.number == value * FP_PRECISION_MULTIPLIER_CONST,
    {
        PixelValue::const_from_metric(AzSizeMetric::Pt, value)
    }

    /// A whole number of percent.
    pub fn const_percent(value: isize) -> (r: AzPixelValue)
        requires
            isize::MIN <= value * FP_PRECISION_MULTIPLIER_CONST <= isize::MAX,
        ensures
            r.metric == AzSizeMetric::Percent,
            r.number.number == value * FP_PRECISION_MULTIPLIER_CONST,
    {
        PixelValue::const_from_metric(AzSizeMetric::Percent, value)
    }

    /// A whole number of the given unit.
    pub fn const_from_metric(metric: AzSizeMetric, value: isize) -> (r: AzPixelValue)
        requires
            isize::MIN <= value * FP_PRECISION_MULTIPLIER_CONST <= isize::MAX,
        ensures
            r.metric == metric,
            r.number.number == value * FP_PRECISION_MULTIPLIER_CONST,
    {
        AzPixelValue { metric, number: FloatValue::const_new(value) }
    }
}

impl PixelValueNoPercent {
    pub fn zero() -> (r: AzPixelValueNoPercent)
        ensures
            r.inner.metric == AzSizeMetric::Px,
            r.inner.number.number == 0,
    {
        AzPixelValueNoPercent { inner: PixelValue::zero() }
    }

    /// A whole number of pixels.
    pub fn const_px(value: isize) -> (r: AzPixelValueNoPercent)
        requires
            isize::MIN <= value * FP_PRECISION_MULTIPLIER_CONST <= isize::MAX,
        ensures
            r.inner.metric == AzSizeMetric::Px,
            r.inner.number.number == value * FP_PRECISION_MULTIPLIER_CONST,
    {
        AzPixelValueNoPercent { inner: PixelValue::const_px(value) }
    }

    /// A whole number of font-size units.
    pub fn const_em(value: isize) -> (r: AzPixelValueNoPercent)
        requires
            isize::MIN <= value * FP_PRECISION_MULTIPLIER_CONST <= isize::MAX,
        ensures
            r.inner.metric == AzSizeMetric::Em,
            r.inner.number.number == value * FP_PRECISION_MULTIPLIER_CONST,
    {
        AzPixelValueNoPercent { inner: PixelValue::const_em(value) }
    }

    /// A whole number of points.
    pub fn const_pt(value: isize) -> (r: AzPixelValueNoPercent)
        requires
            isize::MIN <= value * FP_PRECISION_MULTIPLIER_CONST <= isize::MAX,
        ensures
            r.inner.metric == AzSizeMetric::Pt,
            r.inner.number.number == value * FP_PRECISION_MULTIPLIER_CONST,
    {
        AzPixelValueNoPercent { inner: PixelValue::const_pt(value) }
    }

    /// A whole number of the given unit.
    pub fn const_from_metric(metric: AzSizeMetric, value: isize) -> (r: AzPixelValueNoPercent)
        requires
            isize::MIN <= value * FP_PRECISION_MULTIPLIER_CONST <= isize::MAX,
        ensures
            r.inner.metric == metric,
            r.inner.number.number == value * FP_PRECISION_MULTIPLIER_CONST,
    {
        AzPixelValueNoPercent { inner: PixelValue::const_from_metric(metric, value) }
    }
}

} // verus!
