//! The ASCII animations shown by the screensaver.

use vstd::prelude::*;

verus! {

/// A screensaver animation: a non-empty name, a non-empty list of frames shown one
/// after the other, a positive delay between frames and the positive size of a frame
/// in terminal cells.
pub trait Animation {
    /// The name of the animation.
    spec fn spec_name(&self) -> Seq<char>;

    /// The frames of the animation.
    spec fn spec_frames(&self) -> Seq<&'static str>;

    /// The delay between frames in milliseconds.
    spec fn spec_frame_delay_ms(&self) -> u64;

    /// The width of a frame in characters.
    spec fn spec_width(&self) -> u16;

    /// The height of a frame in lines.
    spec fn spec_height(&self) -> u16;

    /// Returns the name of the animation.
    fn name(&self) -> (r: &'static str)
        ensures
            r@ == self.spec_name(),
            r@.len() > 0,
    ;

    /// Returns all frames of the animation; there is at least one.
    fn frames(&self) -> (r: Vec<&'static str>)
        ensures
            r@ == self.spec_frames(),
            r.len() > 0,
    ;

    /// Returns the delay between frames in milliseconds.
    fn frame_delay_ms(&self) -> (r: u64)
        ensures
            r == self.spec_frame_delay_ms(),
            r > 0,
    ;

    /// Returns the width of the animation in characters.
    fn width(&self) -> (r: u16)
        ensures
            r == self.spec_width(),
            r > 0,
    ;

    /// Returns the height of the animation in lines.
    fn height(&self) -> (r: u16)
        ensures
            r == self.spec_height(),
            r > 0,
    ;
}

/// A spinning clock animation using clock emoji faces.
#[derive(Debug, Clone, Copy, Default)]
pub struct SpinningClock;

impl Animation for SpinningClock {
    open spec fn spec_name(&self) -> Seq<char> {
        "Spinning Clock"@
    }

    open spec fn spec_frames(&self) -> Seq<&'static str> {
        seq![
            "🕐", "🕑", "🕒", "🕓", "🕔", "🕕", "🕖", "🕗", "🕘", "🕙", "🕚", "🕛",
        ]
    }

    open spec fn spec_frame_delay_ms(&self) -> u64 {
        150
    }

    open spec fn spec_width(&self) -> u16 {
        2
    }

    open spec fn spec_height(&self) -> u16 {
        1
    }

    fn name(&self) -> (r: &'static str) {
        proof {
            reveal_strlit("Spinning Clock");
        }
        "Spinning Clock"
    }

    fn frames(&self) -> (r: Vec<&'static str>) {
        let r = vec![
            "🕐", "🕑", "🕒", "🕓", "🕔", "🕕", "🕖", "🕗", "🕘", "🕙", "🕚", "🕛",
        ];
        assert(r@ =~= self.spec_frames());
        r
    }

    fn frame_delay_ms(&self) -> (r: u64) {
        150
    }

    fn width(&self) -> (r: u16) {
        2
    }

    fn height(&self) -> (r: u16) {
        1
    }
}

/// A small box bouncing around inside a larger container.
#[derive(Debug, Clone, Copy, Default)]
pub struct BouncingBox;

impl Animation for BouncingBox {
    open spec fn spec_name(&self) -> Seq<char> {
        "Bouncing Box"@
    }

    open spec fn spec_frames(&self) -> Seq<&'static str> {
        seq![
            r"┌─────────────┐
│             │
│   ┌───┐     │
│   │ ■ │     │
│   └───┘     │
│             │
└─────────────┘",
            r"┌─────────────┐
│  ┌───┐      │
│  │ ■ │      │
│  └───┘      │
│             │
│             │
└─────────────┘",
            r"┌─────────────┐
│┌───┐        │
││ ■ │        │
│└───┘        │
│             │
│             │
└─────────────┘",
            r"┌─────────────┐
│             │
│┌───┐        │
││ ■ │        │
│└───┘        │
│             │
└─────────────┘",
            r"┌─────────────┐
│             │
│             │
│┌───┐        │
││ ■ │        │
│└───┘        │
└─────────────┘",
            r"┌─────────────┐
│             │
│             │
│  ┌───┐      │
│  │ ■ │      │
│  └───┘      │
└─────────────┘",
            r"┌─────────────┐
│             │
│             │
│     ┌───┐   │
│     │ ■ │   │
│     └───┘   │
└─────────────┘",
            r"┌─────────────┐
│             │
│             │
│       ┌───┐ │
│       │ ■ │ │
│       └───┘ │
└─────────────┘",
            r"┌─────────────┐
│             │
│       ┌───┐ │
│       │ ■ │ │
│       └───┘ │
│             │
└─────────────┘",
            r"┌─────────────┐
│       ┌───┐ │
│       │ ■ │ │
│       └───┘ │
│             │
│             │
└─────────────┘",
            r"┌─────────────┐
│     ┌───┐   │
│     │ ■ │   │
│     └───┘   │
│             │
│             │
└─────────────┘",
            r"┌─────────────┐
│   ┌───┐     │
│   │ ■ │     │
│   └───┘     │
│             │
│             │
└─────────────┘",
        ]
    }

    open spec fn spec_frame_delay_ms(&self) -> u64 {
        100
    }

    open spec fn spec_width(&self) -> u16 {
        15
    }

    open spec fn spec_height(&self) -> u16 {
        7
    }

    fn name(&self) -> (r: &'static str) {
        proof {
            reveal_strlit("Bouncing Box");
        }
        "Bouncing Box"
    }

    fn frames(&self) -> (r: Vec<&'static str>) {
        let r = vec![
            r"┌─────────────┐
│             │
│   ┌───┐     │
│   │ ■ │     │
│   └───┘     │
│             │
└─────────────┘",
            r"┌─────────────┐
│  ┌───┐      │
│  │ ■ │      │
│  └───┘      │
│             │
│             │
└─────────────┘",
            r"┌─────────────┐
│┌───┐        │
││ ■ │        │
│└───┘        │
│             │
│             │
└─────────────┘",
            r"┌─────────────┐
│             │
│┌───┐        │
││ ■ │        │
│└───┘        │
│             │
└─────────────┘",
            r"┌─────────────┐
│             │
│             │
│┌───┐        │
││ ■ │        │
│└───┘        │
└─────────────┘",
            r"┌─────────────┐
│             │
│             │
│  ┌───┐      │
│  │ ■ │      │
│  └───┘      │
└─────────────┘",
            r"┌─────────────┐
│             │
│             │
│     ┌───┐   │
│     │ ■ │   │
│     └───┘   │
└─────────────┘",
            r"┌─────────────┐
│             │
│             │
│       ┌───┐ │
│       │ ■ │ │
│       └───┘ │
└─────────────┘",
            r"┌─────────────┐
│             │
│       ┌───┐ │
│       │ ■ │ │
│       └───┘ │
│             │
└─────────────┘",
            r"┌─────────────┐
│       ┌───┐ │
│       │ ■ │ │
│       └───┘ │
│             │
│             │
└─────────────┘",
            r"┌─────────────┐
│     ┌───┐   │
│     │ ■ │   │
│     └───┘   │
│             │
│             │
└─────────────┘",
            r"┌─────────────┐
│   ┌───┐     │
│   │ ■ │     │
│   └───┘     │
│             │
│             │
└─────────────┘",
        ];
        assert(r@ =~= self.spec_frames());
        r
    }

    fn frame_delay_ms(&self) -> (r: u64) {
        100
    }

    fn width(&self) -> (r: u16) {
        15
    }

    fn height(&self) -> (r: u16) {
        7
    }
}

/// A Matrix-style rain of falling 0s and 1s.
#[derive(Debug, Clone, Copy, Default)]
pub struct MatrixRain;

impl Animation for MatrixRain {
    open spec fn spec_name(&self) -> Seq<char> {
        "Matrix Rain"@
    }

    open spec fn spec_frames(&self) -> Seq<&'static str> {
        seq![
            r"  1   0     1  
    0   1     0
  1       0    
      1       1
0       1      
    1       0  
        0   1  
  1   1        ",
            r"    0   1      
  1       0    
      1        
0       1   1  
    1       0  
        0   1  
  1   1        
      0        ",
            r"  1       0    
      1        
0       1   1  
    1       0  
        0   1  
  1   1        
      0        
    0     1    ",
            r"      1        
0       1   1  
    1       0  
        0   1  
  1   1        
      0        
    0     1    
  1   0     1  ",
            r"0       1   1  
    1       0  
        0   1  
  1   1        
      0        
    0     1    
  1   0     1  
    0   1     0",
            r"    1       0  
        0   1  
  1   1        
      0        
    0     1    
  1   0     1  
    0   1     0
  1       0    ",
            r"        0   1  
  1   1        
      0        
    0     1    
  1   0     1  
    0   1     0
  1       0    
      1       1",
            r"  1   1        
      0        
    0     1    
  1   0     1  
    0   1     0
  1       0    
      1       1
0       1      ",
        ]
    }

    open spec fn spec_frame_delay_ms(&self) -> u64 {
        200
    }

    open spec fn spec_width(&self) -> u16 {
        15
    }

    open spec fn spec_height(&self) -> u16 {
        8
    }

    fn name(&self) -> (r: &'static str) {
        proof {
            reveal_strlit("Matrix Rain");
        }
        "Matrix Rain"
    }

    fn frames(&self) -> (r: Vec<&'static str>) {
        let r = vec![
            r"  1   0     1  
    0   1     0
  1       0    
      1       1
0       1      
    1       0  
        0   1  
  1   1        ",
            r"    0   1      
  1       0    
      1        
0       1   1  
    1       0  
        0   1  
  1   1        
      0        ",
            r"  1       0    
      1        
0       1   1  
    1       0  
        0   1  
  1   1        
      0        
    0     1    ",
            r"      1        
0       1   1  
    1       0  
        0   1  
  1   1        
      0        
    0     1    
  1   0     1  ",
            r"0       1   1  
    1       0  
        0   1  
  1   1        
      0        
    0     1    
  1   0     1  
    0   1     0",
            r"    1       0  
        0   1  
  1   1        
      0        
    0     1    
  1   0     1  
    0   1     0
  1       0    ",
            r"        0   1  
  1   1        
      0        
    0     1    
  1   0     1  
    0   1     0
  1       0    
      1       1",
            r"  1   1        
      0        
    0     1    
  1   0     1  
    0   1     0
  1       0    
      1       1
0       1      ",
        ];
        assert(r@ =~= self.spec_frames());
        r
    }

    fn frame_delay_ms(&self) -> (r: u64) {
        200
    }

    fn width(&self) -> (r: u16) {
        15
    }

    fn height(&self) -> (r: u16) {
        8
    }
}

/// A loading spinner using braille characters.
#[derive(Debug, Clone, Copy, Default)]
pub struct LoadingSpinner;

impl Animation for LoadingSpinner {
    open spec fn spec_name(&self) -> Seq<char> {
        "Loading Spinner"@
    }

    open spec fn spec_frames(&self) -> Seq<&'static str> {
        seq![
            r"╔════════════╗
║ ⠋ Loading  ║
╚════════════╝",
            r"╔════════════╗
║ ⠙ Loading  ║
╚════════════╝",
            r"╔════════════╗
║ ⠹ Loading  ║
╚════════════╝",
            r"╔════════════╗
║ ⠸ Loading  ║
╚════════════╝",
            r"╔════════════╗
║ ⠼ Loading  ║
╚════════════╝",
            r"╔════════════╗
║ ⠴ Loading  ║
╚════════════╝",
            r"╔════════════╗
║ ⠦ Loading  ║
╚════════════╝",
            r"╔════════════╗
║ ⠧ Loading  ║
╚════════════╝",
            r"╔════════════╗
║ ⠇ Loading  ║
╚════════════╝",
            r"╔════════════╗
║ ⠏ Loading  ║
╚════════════╝",
        ]
    }

    open spec fn spec_frame_delay_ms(&self) -> u64 {
        100
    }

    open spec fn spec_width(&self) -> u16 {
        14
    }

    open spec fn spec_height(&self) -> u16 {
        3
    }

    fn name(&self) -> (r: &'static str) {
        proof {
            reveal_strlit("Loading Spinner");
        }
        "Loading Spinner"
    }

    fn frames(&self) -> (r: Vec<&'static str>) {
        let r = vec![
            r"╔════════════╗
║ ⠋ Loading  ║
╚════════════╝",
            r"╔════════════╗
║ ⠙ Loading  ║
╚════════════╝",
            r"╔════════════╗
║ ⠹ Loading  ║
╚════════════╝",
            r"╔════════════╗
║ ⠸ Loading  ║
╚════════════╝",
            r"╔════════════╗
║ ⠼ Loading  ║
╚════════════╝",
            r"╔════════════╗
║ ⠴ Loading  ║
╚════════════╝",
            r"╔════════════╗
║ ⠦ Loading  ║
╚════════════╝",
            r"╔════════════╗
║ ⠧ Loading  ║
╚════════════╝",
            r"╔════════════╗
║ ⠇ Loading  ║
╚════════════╝",
            r"╔════════════╗
║ ⠏ Loading  ║
╚════════════╝",
        ];
        assert(r@ =~= self.spec_frames());
        r
    }

    fn frame_delay_ms(&self) -> (r: u64) {
        100
    }

    fn width(&self) -> (r: u16) {
        14
    }

    fn height(&self) -> (r: u16) {
        3
    }
}

/// The application name moving up and down inside a frame.
#[derive(Debug, Clone, Copy, Default)]
pub struct WavingText;

impl Animation for WavingText {
    open spec fn spec_name(&self) -> Seq<char> {
        "Waving Text"@
    }

    open spec fn spec_frames(&self) -> Seq<&'static str> {
        seq![
            r"╔═══════════════════════╗
║                       ║
║ Schließfach-Manager   ║
║                       ║
╚═══════════════════════╝",
            r"╔═══════════════════════╗
║ Schließfach-Manager   ║
║                       ║
║                       ║
╚═══════════════════════╝",
            r"╔═══════════════════════╗
║                       ║
║ Schließfach-Manager   ║
║                       ║
╚═══════════════════════╝",
            r"╔═══════════════════════╗
║                       ║
║                       ║
║ Schließfach-Manager   ║
╚═══════════════════════╝",
            r"╔═══════════════════════╗
║                       ║
║ Schließfach-Manager   ║
║                       ║
╚═══════════════════════╝",
            r"╔═══════════════════════╗
║ Schließfach-Manager   ║
║                       ║
║                       ║
╚═══════════════════════╝",
        ]
    }

    open spec fn spec_frame_delay_ms(&self) -> u64 {
        300
    }

    open spec fn spec_width(&self) -> u16 {
        25
    }

    open spec fn spec_height(&self) -> u16 {
        5
    }

    fn name(&self) -> (r: &'static str) {
        proof {
            reveal_strlit("Waving Text");
        }
        "Waving Text"
    }

    fn frames(&self) -> (r: Vec<&'static str>) {
        let r = vec![
            r"╔═══════════════════════╗
║                       ║
║ Schließfach-Manager   ║
║                       ║
╚═══════════════════════╝",
            r"╔═══════════════════════╗
║ Schließfach-Manager   ║
║                       ║
║                       ║
╚═══════════════════════╝",
            r"╔═══════════════════════╗
║                       ║
║ Schließfach-Manager   ║
║                       ║
╚═══════════════════════╝",
            r"╔═══════════════════════╗
║                       ║
║                       ║
║ Schließfach-Manager   ║
╚═══════════════════════╝",
            r"╔═══════════════════════╗
║                       ║
║ Schließfach-Manager   ║
║                       ║
╚═══════════════════════╝",
            r"╔═══════════════════════╗
║ Schließfach-Manager   ║
║                       ║
║                       ║
╚═══════════════════════╝",
        ];
        assert(r@ =~= self.spec_frames());
        r
    }

    fn frame_delay_ms(&self) -> (r: u64) {
        300
    }

    fn width(&self) -> (r: u16) {
        25
    }

    fn height(&self) -> (r: u16) {
        5
    }
}

/// The names of the built-in animations, in the order of `all_animations`.
pub open spec fn builtin_names() -> Seq<Seq<char>> {
    seq!["Spinning Clock"@, "Bouncing Box"@, "Matrix Rain"@, "Loading Spinner"@, "Waving Text"@]
}

/// Returns all available animations: the spinning clock, the bouncing box, the matrix
/// rain, the loading spinner and the waving text, in this order. Each has frames, a
/// positive frame delay and a positive size.
pub fn all_animations() -> (r: Vec<Box<dyn Animation>>)
    ensures
        r.len() == 5,
        forall|i: int| 0 <= i < 5 ==> (#[trigger] r@[i]).spec_name() == builtin_names()[i],
        forall|i: int|
            0 <= i < 5 ==> {
                &&& (#[trigger] r@[i]).spec_frames().len() > 0
                &&& r@[i].spec_frame_delay_ms() > 0
                &&& r@[i].spec_width() > 0
                &&& r@[i].spec_height() > 0
            },
{
    vec![
        Box::new(SpinningClock),
        Box::new(BouncingBox),
        Box::new(MatrixRain),
        Box::new(LoadingSpinner),
        Box::new(WavingText),
    ]
}

} // verus!
