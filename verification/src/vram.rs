//! Video memory: the graphic plane and the text plane, each a flat byte
//! array with bounds-checked accessors.

use vstd::prelude::*;

verus! {

pub const GRAPHIC_SIZE: u32 = 0x200000;

pub const TEXT_SIZE: u32 = 0x80000;

pub struct Vram {
    pub graphic: Vec<u8>,
    pub text: Vec<u8>,
}

impl Vram {
    pub open spec fn wf(&self) -> bool {
        self.graphic.len() == GRAPHIC_SIZE && self.text.len() == TEXT_SIZE
    }

    pub fn new() -> (r: Vram)
        ensures
            r.wf(),
            forall|i: int| 0 <= i < GRAPHIC_SIZE ==> r.graphic[i] == 0,
            forall|i: int| 0 <= i < TEXT_SIZE ==> r.text[i] == 0,
    {
        let mut graphic: Vec<u8> = Vec::new();
        while graphic.len() < 0x200000
            invariant
                graphic.len() <= 0x200000,
                forall|i: int| 0 <= i < graphic.len() ==> graphic[i] == 0,
            decreases 0x200000 - graphic.len(),
        {
            graphic.push(0);
        }
        let mut text: Vec<u8> = Vec::new();
        while text.len() < 0x80000
            invariant
                text.len() <= 0x80000,
                forall|i: int| 0 <= i < text.len() ==> text[i] == 0,
            decreases 0x80000 - text.len(),
        {
            text.push(0);
        }
        Vram { graphic, text }
    }

    pub fn read_graphic(&self, adr: u32) -> (r: u8)
        requires
            self.wf(),
            adr < GRAPHIC_SIZE,
        ensures
            r == self.graphic[adr as int],
    {
        self.graphic[adr as usize]
    }

    pub fn read_text(&self, adr: u32) -> (r: u8)
        requires
            self.wf(),
            adr < TEXT_SIZE,
        ensures
            r == self.text[adr as int],
    {
        self.text[adr as usize]
    }

    pub fn write_graphic(&mut self, adr: u32, value: u8)
        requires
            old(self).wf(),
            adr < GRAPHIC_SIZE,
        ensures
            final(self).wf(),
            final(self).graphic@ == old(self).graphic@.update(adr as int, value),
            final(self).text == old(self).text,
    {
        self.graphic.set(adr as usize, value);
    }

    pub fn write_text(&mut self, adr: u32, value: u8)
        requires
            old(self).wf(),
            adr < TEXT_SIZE,
        ensures
            final(self).wf(),
            final(self).text@ == old(self).text@.update(adr as int, value),
            final(self).graphic == old(self).graphic,
    {
        self.text.set(adr as usize, value);
    }
}

} // verus!
